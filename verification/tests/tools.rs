use serde_json::Value;
use std::collections::HashMap;
use xai_grpc_client::proto;
use xai_grpc_client::{
    CollectionsSearchTool, DocumentSearchTool, FunctionCall, FunctionTool, McpTool, Tool, ToolCall,
    ToolCallKind, ToolCallStatusKind, ToolChoice, WebSearchTool, XSearchTool,
};

fn object(entries: Vec<(&str, Value)>) -> Value {
    Value::Object(entries.into_iter().map(|(k, v)| (k.to_string(), v)).collect())
}

#[test]
fn test_function_tool_creation() {
    let tool = FunctionTool::new("get_weather", "Get current weather");
    assert_eq!(tool.name, "get_weather");
    assert_eq!(tool.description, "Get current weather");
}

#[test]
fn test_function_tool_with_parameters() {
    let params = object(vec![
        ("type", Value::String("object".to_string())),
        (
            "properties",
            object(vec![(
                "location",
                object(vec![("type", Value::String("string".to_string()))]),
            )]),
        ),
    ]);

    let tool = FunctionTool::new("get_weather", "Get weather")
        .with_parameters(params.clone());

    assert_eq!(tool.parameters, params);
}

#[test]
fn test_web_search_tool() {
    let tool = WebSearchTool::new().with_excluded_domains(vec!["spam.com".to_string()]);
    assert_eq!(tool.excluded_domains.len(), 1);
}

#[test]
fn test_x_search_tool() {
    let tool = XSearchTool::new().with_allowed_handles(vec!["@rustlang".to_string()]);
    assert_eq!(tool.allowed_x_handles.len(), 1);
}

#[test]
fn test_tool_choice_auto() {
    let choice = ToolChoice::Auto;
    assert!(matches!(choice, ToolChoice::Auto));
}

#[test]
fn test_tool_choice_required() {
    let choice = ToolChoice::Required;
    assert!(matches!(choice, ToolChoice::Required));
}

#[test]
fn test_tool_choice_function() {
    let choice = ToolChoice::Function("my_function".to_string());
    match choice {
        ToolChoice::Function(name) => assert_eq!(name, "my_function"),
        _ => panic!("Expected Function variant"),
    }
}

#[test]
fn test_function_call_parse_arguments() {
    let call = FunctionCall {
        name: "test_fn".to_string(),
        arguments: r#"{"param": "value"}"#.to_string(),
    };

    let json = call.arguments_json().unwrap();
    assert_eq!(json["param"], "value");
}

#[test]
fn test_mcp_tool() {
    let tool = McpTool::new("https://example.com/mcp")
        .with_label("My MCP Server");
    assert_eq!(tool.server_url, "https://example.com/mcp");
    assert_eq!(tool.server_label, "My MCP Server");
}

#[test]
fn test_collections_search_tool() {
    let tool = CollectionsSearchTool::new(vec!["coll_1".to_string()]).with_limit(10);

    assert_eq!(tool.collection_ids.len(), 1);
    assert_eq!(tool.limit, Some(10));
}

#[test]
fn test_document_search_tool() {
    let tool = DocumentSearchTool::new().with_limit(20);

    assert_eq!(tool.limit, Some(20));
}

#[test]
fn test_function_tool_default_parameters() {
    let tool = FunctionTool::new("noop", "Does nothing");
    let expected = object(vec![
        ("type", Value::String("object".to_string())),
        ("properties", object(vec![])),
    ]);
    assert_eq!(tool.parameters, expected);
    assert_eq!(tool.parameters.to_string(), r#"{"properties":{},"type":"object"}"#);
}

#[test]
fn test_function_tool_to_proto_renders_schema() {
    let params = object(vec![("type", Value::String("object".to_string()))]);
    let tool = FunctionTool::new("get_weather", "Get weather").with_parameters(params);
    let wire = tool.to_proto();
    assert_eq!(wire.name, "get_weather");
    assert_eq!(wire.description, "Get weather");
    assert!(!wire.strict);
    assert_eq!(wire.parameters, r#"{"type":"object"}"#);
}

#[test]
fn test_arguments_json_rejects_bad_text() {
    let call = FunctionCall { name: "f".to_string(), arguments: "{not json".to_string() };
    assert!(call.arguments_json().is_err());
    let call = FunctionCall { name: "f".to_string(), arguments: "[1, 2]".to_string() };
    assert_eq!(call.arguments_json().unwrap().to_string(), "[1,2]");
}

#[test]
fn test_each_tool_maps_to_its_own_wire_case() {
    let ts = prost_types::Timestamp { seconds: 10, nanos: 5 };
    let mut headers = HashMap::new();
    headers.insert("x-a".to_string(), "1".to_string());
    let tools = vec![
        Tool::Function(FunctionTool::new("f", "d")),
        Tool::WebSearch(
            WebSearchTool::new()
                .with_excluded_domains(vec!["spam.com".to_string()])
                .with_allowed_domains(vec!["good.com".to_string()])
                .with_image_understanding(true),
        ),
        Tool::XSearch(
            XSearchTool::new()
                .with_date_range(Some(ts), None)
                .with_allowed_handles(vec!["@a".to_string()])
                .with_excluded_handles(vec!["@b".to_string()])
                .with_media_understanding(true, false),
        ),
        Tool::CodeExecution,
        Tool::CollectionsSearch(CollectionsSearchTool::new(vec!["c1".to_string()]).with_limit(3)),
        Tool::Mcp(
            McpTool::new("https://mcp.example")
                .with_label("l")
                .with_description("d")
                .with_allowed_tools(vec!["t".to_string()])
                .with_authorization("tok")
                .with_headers(headers.clone()),
        ),
        Tool::DocumentSearch(DocumentSearchTool::new().with_limit(9)),
    ];
    let wire: Vec<proto::Tool> = tools.iter().map(|t| t.to_proto()).collect();
    assert!(matches!(&wire[0].tool, Some(proto::tool::Tool::Function(f)) if f.name == "f"));
    match &wire[1].tool {
        Some(proto::tool::Tool::WebSearch(w)) => {
            assert_eq!(w.excluded_domains, vec!["spam.com"]);
            assert_eq!(w.allowed_domains, vec!["good.com"]);
            assert_eq!(w.enable_image_understanding, Some(true));
        }
        _ => panic!("Expected web search"),
    }
    match &wire[2].tool {
        Some(proto::tool::Tool::XSearch(x)) => {
            assert_eq!(x.from_date, Some(ts));
            assert_eq!(x.to_date, None);
            assert_eq!(x.allowed_x_handles, vec!["@a"]);
            assert_eq!(x.excluded_x_handles, vec!["@b"]);
            assert_eq!(x.enable_image_understanding, Some(true));
            assert_eq!(x.enable_video_understanding, Some(false));
        }
        _ => panic!("Expected X search"),
    }
    assert!(matches!(&wire[3].tool, Some(proto::tool::Tool::CodeExecution(_))));
    match &wire[4].tool {
        Some(proto::tool::Tool::CollectionsSearch(c)) => {
            assert_eq!(c.collection_ids, vec!["c1"]);
            assert_eq!(c.limit, Some(3));
        }
        _ => panic!("Expected collections search"),
    }
    match &wire[5].tool {
        Some(proto::tool::Tool::Mcp(m)) => {
            assert_eq!(m.server_url, "https://mcp.example");
            assert_eq!(m.server_label, "l");
            assert_eq!(m.server_description, "d");
            assert_eq!(m.allowed_tool_names, vec!["t"]);
            assert_eq!(m.authorization, Some("tok".to_string()));
            assert_eq!(m.extra_headers, headers);
        }
        _ => panic!("Expected MCP"),
    }
    assert!(matches!(&wire[6].tool, Some(proto::tool::Tool::DocumentSearch(d)) if d.limit == Some(9)));
}

#[test]
fn test_tool_choice_to_proto() {
    assert!(matches!(
        ToolChoice::Auto.to_proto().tool_choice,
        Some(proto::tool_choice::ToolChoice::Mode(m)) if m == proto::ToolMode::Auto as i32
    ));
    assert!(matches!(
        ToolChoice::Required.to_proto().tool_choice,
        Some(proto::tool_choice::ToolChoice::Mode(m)) if m == proto::ToolMode::Required as i32
    ));
    assert!(matches!(
        ToolChoice::Function("f".to_string()).to_proto().tool_choice,
        Some(proto::tool_choice::ToolChoice::FunctionName(name)) if name == "f"
    ));
}

#[test]
fn test_tool_call_round_trip() {
    let kinds = vec![
        ToolCallKind::ClientSideTool,
        ToolCallKind::WebSearchTool,
        ToolCallKind::XSearchTool,
        ToolCallKind::CodeExecutionTool,
        ToolCallKind::CollectionsSearchTool,
        ToolCallKind::McpTool,
        ToolCallKind::Unknown,
    ];
    let statuses = vec![
        ToolCallStatusKind::InProgress,
        ToolCallStatusKind::Completed,
        ToolCallStatusKind::Incomplete,
        ToolCallStatusKind::Failed,
    ];
    for kind in &kinds {
        for status in &statuses {
            let call = ToolCall {
                id: "call_1".to_string(),
                call_type: kind.clone(),
                status: status.clone(),
                error_message: Some("boom".to_string()),
                function: FunctionCall {
                    name: "get_weather".to_string(),
                    arguments: r#"{"city": "Tokyo"}"#.to_string(),
                },
            };
            let back = ToolCall::from_proto(call.to_proto()).unwrap();
            assert_eq!(back.id, "call_1");
            assert_eq!(&back.call_type, kind);
            assert_eq!(&back.status, status);
            assert_eq!(back.error_message, Some("boom".to_string()));
            assert_eq!(back.function.name, "get_weather");
            assert_eq!(back.function.arguments, r#"{"city": "Tokyo"}"#);
            let by_ref = ToolCall::from_proto_ref(&call.to_proto()).unwrap();
            assert_eq!(by_ref.id, back.id);
            assert_eq!(by_ref.call_type, back.call_type);
            assert_eq!(by_ref.function.arguments, back.function.arguments);
        }
    }
}

#[test]
fn test_tool_call_decoding_never_fails_on_codes() {
    for code in [-1, 7, 100, i32::MAX, i32::MIN] {
        assert_eq!(ToolCallKind::from_proto(code), ToolCallKind::Unknown);
        assert_eq!(ToolCallStatusKind::from_proto(code), ToolCallStatusKind::Unknown);
    }
    for code in [4, 5, 6] {
        assert_ne!(ToolCallKind::from_proto(code), ToolCallKind::Unknown);
        assert_eq!(ToolCallStatusKind::from_proto(code), ToolCallStatusKind::Unknown);
    }
    assert_eq!(ToolCallStatusKind::from_proto(1), ToolCallStatusKind::Completed);
    assert_eq!(ToolCallStatusKind::from_proto(2), ToolCallStatusKind::Incomplete);
    assert_eq!(ToolCallStatusKind::Unknown.to_proto(), proto::ToolCallStatus::InProgress);
    assert_eq!(ToolCallKind::from_proto(0), ToolCallKind::Unknown);
    assert_eq!(ToolCallKind::from_proto(1), ToolCallKind::ClientSideTool);
    assert_eq!(ToolCallKind::from_proto(6), ToolCallKind::McpTool);
    assert_eq!(ToolCallStatusKind::from_proto(0), ToolCallStatusKind::InProgress);
    assert_eq!(ToolCallStatusKind::from_proto(3), ToolCallStatusKind::Failed);
    assert_eq!(ToolCallKind::Unknown.to_proto(), proto::ToolCallType::Invalid);
    assert_eq!(ToolCallStatusKind::Incomplete.to_proto(), proto::ToolCallStatus::Incomplete);
}

#[test]
fn test_tool_call_without_call_is_none() {
    let wire = proto::ToolCall {
        id: "x".to_string(),
        call_type: 1,
        status: 1,
        error_message: None,
        tool: None,
    };
    assert!(ToolCall::from_proto_ref(&wire).is_none());
    assert!(ToolCall::from_proto(wire).is_none());
}

#[test]
fn test_tool_clones_keep_everything() {
    let mut headers = HashMap::new();
    headers.insert("x-a".to_string(), "1".to_string());
    let params = object(vec![("type", Value::String("object".to_string()))]);
    let function = FunctionTool::new("f", "d").with_parameters(params.clone());
    let copy = function.clone();
    assert_eq!(copy.name, "f");
    assert_eq!(copy.description, "d");
    assert_eq!(copy.parameters, params);
    let mcp = McpTool::new("https://mcp.example")
        .with_allowed_tools(vec!["t".to_string()])
        .with_authorization("tok")
        .with_headers(headers.clone());
    match Tool::Mcp(mcp).clone() {
        Tool::Mcp(copy) => {
            assert_eq!(copy.server_url, "https://mcp.example");
            assert_eq!(copy.allowed_tool_names, vec!["t"]);
            assert_eq!(copy.authorization, Some("tok".to_string()));
            assert_eq!(copy.extra_headers, headers);
        }
        _ => panic!("Expected MCP"),
    }
    let ts = prost_types::Timestamp { seconds: 1, nanos: 2 };
    let x = XSearchTool::new().with_date_range(None, Some(ts)).with_excluded_handles(vec!["@b".to_string()]);
    let copy = x.clone();
    assert_eq!(copy.to_date, Some(ts));
    assert_eq!(copy.from_date, None);
    assert_eq!(copy.excluded_x_handles, vec!["@b"]);
    assert!(matches!(ToolChoice::Function("f".to_string()).clone(), ToolChoice::Function(n) if n == "f"));
    assert!(matches!(Tool::CodeExecution.clone(), Tool::CodeExecution));
    let web = WebSearchTool::default().with_allowed_domains(vec!["a.com".to_string()]);
    assert_eq!(web.clone().allowed_domains, vec!["a.com"]);
    assert_eq!(CollectionsSearchTool::new(vec!["c".to_string()]).with_limit(2).clone().limit, Some(2));
    assert_eq!(DocumentSearchTool::default().clone().limit, None);
    assert_eq!(XSearchTool::default().allowed_x_handles.len(), 0);
}

#[test]
fn test_tool_call_with_unknown_state() {
    let mut wire = proto::ToolCall {
        id: "call_9".to_string(),
        call_type: proto::ToolCallType::McpTool as i32,
        status: 42,
        error_message: None,
        tool: Some(proto::tool_call::Tool::Function(proto::FunctionCall {
            name: "f".to_string(),
            arguments: "[]".to_string(),
        })),
    };
    let call = ToolCall::from_proto_ref(&wire).unwrap();
    assert_eq!(call.status, ToolCallStatusKind::Unknown);
    assert_eq!(call.call_type, ToolCallKind::McpTool);
    // the wire cannot say "unknown": everything but the state comes back
    let back = ToolCall::from_proto(call.to_proto()).unwrap();
    assert_eq!(back.status, ToolCallStatusKind::InProgress);
    assert_eq!(back.id, "call_9");
    assert_eq!(back.call_type, ToolCallKind::McpTool);
    assert_eq!(back.function.name, "f");
    assert_eq!(back.function.arguments, "[]");
    wire.status = -3;
    assert_eq!(ToolCall::from_proto(wire).unwrap().status, ToolCallStatusKind::Unknown);
}
