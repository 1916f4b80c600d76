use base64::Engine;
use xai_grpc_client::client::conversions::{
    decode_base64_embedding, embed_request_to_proto, floats_from_le_bytes, message_to_proto,
    message_content_to_proto, parse_finish_reason_static, proto_chunk_to_chunk,
    proto_to_embed_response, proto_to_response, to_proto_request,
};
use xai_grpc_client::proto;
use xai_grpc_client::{
    ChatRequest, ContentPart, EmbedEncodingFormat, EmbedRequest, FinishReason, Float32, GrokError,
    ImageDetail, IncludeOption, Message, MessageContent, ReasoningEffort, Tool, ToolCallKind, ToolCallStatusKind, ToolChoice,
};

fn num(x: f32) -> Float32 {
    Float32::from_bits(x.to_bits())
}

fn val(x: Float32) -> f32 {
    f32::from_bits(x.to_bits())
}

fn floats(v: &[Float32]) -> Vec<f32> {
    v.iter().map(|x| val(*x)).collect()
}

fn invalid_request(error: GrokError) -> String {
    match error {
        GrokError::InvalidRequest(message) => message,
        other => panic!("expected an invalid request, got {other:?}"),
    }
}

fn text_of(part: &proto::Content) -> &str {
    match &part.content {
        Some(proto::content::Content::Text(text)) => text,
        _ => panic!("expected a text part"),
    }
}

fn wire_call(id: &str, name: &str) -> proto::ToolCall {
    proto::ToolCall {
        id: id.to_string(),
        call_type: proto::ToolCallType::ClientSideTool as i32,
        status: proto::ToolCallStatus::Completed as i32,
        error_message: None,
        tool: Some(proto::tool_call::Tool::Function(proto::FunctionCall {
            name: name.to_string(),
            arguments: "{}".to_string(),
        })),
    }
}

fn wire_response(outputs: Vec<proto::CompletionOutput>) -> proto::GetChatCompletionResponse {
    proto::GetChatCompletionResponse {
        id: "req_1".to_string(),
        outputs,
        created: Some(prost_types::Timestamp { seconds: 1700000000, nanos: 9 }),
        model: "grok-2".to_string(),
        system_fingerprint: "fp_1".to_string(),
        usage: Some(proto::SamplingUsage {
            completion_tokens: 5,
            reasoning_tokens: 0,
            prompt_tokens: 10,
            total_tokens: 15,
            prompt_text_tokens: 10,
            cached_prompt_text_tokens: 0,
            prompt_image_tokens: 0,
            num_sources_used: 0,
            server_side_tools_used: vec![],
        }),
        citations: vec!["https://example.com".to_string()],
    }
}

fn wire_output(finish_reason: i32, message: Option<proto::CompletionMessage>) -> proto::CompletionOutput {
    proto::CompletionOutput { finish_reason, message, logprobs: None }
}

fn wire_message(content: &str) -> proto::CompletionMessage {
    proto::CompletionMessage {
        content: content.to_string(),
        reasoning_content: String::new(),
        tool_calls: vec![],
    }
}

#[test]
fn test_finish_reason_table() {
    assert!(matches!(parse_finish_reason_static(3), FinishReason::Stop));
    assert!(matches!(parse_finish_reason_static(1), FinishReason::Length));
    assert!(matches!(parse_finish_reason_static(2), FinishReason::Length));
    assert!(matches!(parse_finish_reason_static(4), FinishReason::ToolCalls));
    match parse_finish_reason_static(5) {
        FinishReason::Error(message) => assert_eq!(message, "Time limit reached"),
        other => panic!("expected an error, got {other:?}"),
    }
    for code in [0, 6, 7, -1, 1000, i32::MAX, i32::MIN] {
        assert!(matches!(parse_finish_reason_static(code), FinishReason::Unknown));
    }
}

#[test]
fn test_finish_reason_codes_match_wire_enum() {
    assert_eq!(proto::FinishReason::ReasonInvalid as i32, 0);
    assert_eq!(proto::FinishReason::ReasonMaxLen as i32, 1);
    assert_eq!(proto::FinishReason::ReasonMaxContext as i32, 2);
    assert_eq!(proto::FinishReason::ReasonStop as i32, 3);
    assert_eq!(proto::FinishReason::ReasonToolCalls as i32, 4);
    assert_eq!(proto::FinishReason::ReasonTimeLimit as i32, 5);
    for code in 0..6 {
        assert_eq!(proto::FinishReason::from_code(code).unwrap().code(), code);
    }
    assert_eq!(proto::FinishReason::from_code(6), None);
}

#[test]
fn test_request_model_falls_back_to_default() {
    let request = ChatRequest::new().user_message("Hi");
    let wire = to_proto_request("grok-code-fast-1", &request).unwrap();
    assert_eq!(wire.model, "grok-code-fast-1");
    let request = request.with_model("grok-2");
    let wire = to_proto_request("grok-code-fast-1", &request).unwrap();
    assert_eq!(wire.model, "grok-2");
}

#[test]
fn test_unset_settings_stay_unset_on_the_wire() {
    let wire = to_proto_request("m", &ChatRequest::new()).unwrap();
    assert!(wire.messages.is_empty());
    assert_eq!(wire.max_tokens, None);
    assert!(wire.temperature.is_none());
    assert!(wire.top_p.is_none());
    assert!(wire.stop.is_empty());
    assert_eq!(wire.seed, None);
    assert!(wire.tools.is_empty());
    assert!(wire.tool_choice.is_none());
    assert_eq!(wire.reasoning_effort, None);
    assert!(wire.search_parameters.is_none());
    assert!(wire.response_format.is_none());
    assert_eq!(wire.user, "");
    assert!(!wire.logprobs);
    assert_eq!(wire.top_logprobs, None);
    assert!(wire.frequency_penalty.is_none());
    assert!(wire.presence_penalty.is_none());
    assert_eq!(wire.parallel_tool_calls, None);
    assert_eq!(wire.previous_response_id, None);
    assert!(!wire.store_messages);
    assert!(!wire.use_encrypted_content);
    assert_eq!(wire.max_turns, None);
    assert!(wire.include_options.is_empty());
}

#[test]
fn test_full_request_to_wire() {
    let request = ChatRequest::new()
        .system_message("Be brief")
        .user_message("Hello")
        .assistant_message("Hi")
        .tool_result("call_1", r#"{"result": 8}"#)
        .with_model("grok-2")
        .with_max_tokens(100)
        .with_temperature(num(0.7))
        .with_top_p(num(0.9))
        .add_stop_sequence("STOP")
        .add_stop_sequence("END")
        .with_seed(42)
        .add_tool(Tool::CodeExecution)
        .with_tool_choice(ToolChoice::Function("f".to_string()))
        .with_reasoning_effort(ReasoningEffort::High)
        .with_web_search()
        .with_json_schema(serde_json::Value::Bool(true))
        .with_user("user-1")
        .with_logprobs(Some(5))
        .with_frequency_penalty(num(0.5))
        .with_presence_penalty(num(0.25))
        .with_parallel_tool_calls(true)
        .with_previous_response_id("resp_1")
        .with_store_messages(true)
        .with_use_encrypted_content(true)
        .with_max_turns(1)
        .add_include_option(IncludeOption::WebSearchCallOutput)
        .add_include_option(IncludeOption::InlineCitations);
    let wire = to_proto_request("default", &request).unwrap();

    assert_eq!(wire.messages.len(), 4);
    let roles: Vec<i32> = wire.messages.iter().map(|m| m.role).collect();
    assert_eq!(
        roles,
        vec![
            proto::MessageRole::RoleSystem as i32,
            proto::MessageRole::RoleUser as i32,
            proto::MessageRole::RoleAssistant as i32,
            proto::MessageRole::RoleTool as i32,
        ]
    );
    assert_eq!(text_of(&wire.messages[0].content[0]), "Be brief");
    assert_eq!(text_of(&wire.messages[1].content[0]), "Hello");
    assert_eq!(text_of(&wire.messages[2].content[0]), "Hi");
    assert_eq!(text_of(&wire.messages[3].content[0]), r#"{"result": 8}"#);
    assert!(wire.messages.iter().all(|m| m.content.len() == 1));

    assert_eq!(wire.model, "grok-2");
    assert_eq!(wire.max_tokens, Some(100));
    assert_eq!(wire.temperature.map(val), Some(0.7));
    assert_eq!(wire.top_p.map(val), Some(0.9));
    assert_eq!(wire.stop, vec!["STOP", "END"]);
    assert_eq!(wire.seed, Some(42));
    assert_eq!(wire.tools.len(), 1);
    assert!(matches!(&wire.tools[0].tool, Some(proto::tool::Tool::CodeExecution(_))));
    assert!(matches!(
        &wire.tool_choice.as_ref().unwrap().tool_choice,
        Some(proto::tool_choice::ToolChoice::FunctionName(name)) if name == "f"
    ));
    assert_eq!(wire.reasoning_effort, Some(3));
    let search = wire.search_parameters.as_ref().unwrap();
    assert_eq!(search.mode, 2);
    assert_eq!(search.max_search_results, Some(5));
    let format = wire.response_format.as_ref().unwrap();
    assert_eq!(format.format_type, proto::FormatType::JsonSchema as i32);
    assert_eq!(format.schema, Some("true".to_string()));
    assert_eq!(wire.user, "user-1");
    assert!(wire.logprobs);
    assert_eq!(wire.top_logprobs, Some(5));
    assert_eq!(wire.frequency_penalty.map(val), Some(0.5));
    assert_eq!(wire.presence_penalty.map(val), Some(0.25));
    assert_eq!(wire.parallel_tool_calls, Some(true));
    assert_eq!(wire.previous_response_id, Some("resp_1".to_string()));
    assert!(wire.store_messages);
    assert!(wire.use_encrypted_content);
    assert_eq!(wire.max_turns, Some(1));
    assert_eq!(
        wire.include_options,
        vec![
            proto::IncludeOption::WebSearchCallOutput as i32,
            proto::IncludeOption::InlineCitations as i32
        ]
    );
}

#[test]
fn test_enum_codes_on_the_wire() {
    for (effort, code) in [
        (ReasoningEffort::Low, 1),
        (ReasoningEffort::Medium, 2),
        (ReasoningEffort::High, 3),
    ] {
        let wire = to_proto_request("m", &ChatRequest::new().with_reasoning_effort(effort)).unwrap();
        assert_eq!(wire.reasoning_effort, Some(code));
    }
    let wire = to_proto_request("m", &ChatRequest::new().with_json_output()).unwrap();
    let format = wire.response_format.unwrap();
    assert_eq!(format.format_type, proto::FormatType::JsonObject as i32);
    assert_eq!(format.schema, None);
    assert_eq!(proto::FormatType::Text as i32, 1);
    assert_eq!(proto::ToolMode::Auto as i32, proto::ToolMode::Auto.code());
    assert_eq!(proto::ImageDetail::DetailHigh as i32, proto::ImageDetail::DetailHigh.code());
    assert_eq!(proto::IncludeOption::InlineCitations as i32, proto::IncludeOption::InlineCitations.code());
    assert_eq!(proto::MessageRole::RoleTool as i32, proto::MessageRole::RoleTool.code());
}

#[test]
fn test_large_max_tokens_keeps_its_bits() {
    let wire = to_proto_request("m", &ChatRequest::new().with_max_tokens(u32::MAX)).unwrap();
    assert_eq!(wire.max_tokens, Some(u32::MAX as i32));
    let wire = to_proto_request("m", &ChatRequest::new().with_max_tokens(0x8000_0000)).unwrap();
    assert_eq!(wire.max_tokens, Some(i32::MIN));
}

#[test]
fn test_multimodal_parts_keep_their_order() {
    let request = ChatRequest::new().user_multimodal(vec![
        ContentPart::Text("Compare these".to_string()),
        ContentPart::ImageUrl {
            url: "https://example.com/image1.jpg".to_string(),
            detail: Some(ImageDetail::High),
        },
        ContentPart::File { file_id: "file-doc123".to_string() },
    ]);
    let wire = to_proto_request("m", &request).unwrap();
    let parts = &wire.messages[0].content;
    assert_eq!(parts.len(), 3);
    assert_eq!(text_of(&parts[0]), "Compare these");
    match &parts[1].content {
        Some(proto::content::Content::ImageUrl(image)) => {
            assert_eq!(image.image_url, "https://example.com/image1.jpg");
            assert_eq!(image.detail, proto::ImageDetail::DetailHigh as i32);
        }
        _ => panic!("expected an image part"),
    }
    match &parts[2].content {
        Some(proto::content::Content::File(file)) => assert_eq!(file.file_id, "file-doc123"),
        _ => panic!("expected a file part"),
    }
}

#[test]
fn test_multimodal_order_reversed_input() {
    let content = MessageContent::MultiModal(vec![
        ContentPart::File { file_id: "f".to_string() },
        ContentPart::ImageUrl { url: "u".to_string(), detail: None },
        ContentPart::Text("t".to_string()),
        ContentPart::ImageUrl { url: "v".to_string(), detail: Some(ImageDetail::Low) },
    ]);
    let wire = message_content_to_proto(&content);
    assert_eq!(wire.len(), 4);
    assert!(matches!(&wire[0].content, Some(proto::content::Content::File(_))));
    assert!(matches!(
        &wire[1].content,
        Some(proto::content::Content::ImageUrl(i)) if i.detail == proto::ImageDetail::DetailAuto as i32
    ));
    assert!(matches!(&wire[2].content, Some(proto::content::Content::Text(_))));
    assert!(matches!(
        &wire[3].content,
        Some(proto::content::Content::ImageUrl(i)) if i.detail == proto::ImageDetail::DetailLow as i32 && i.image_url == "v"
    ));
    let empty = message_content_to_proto(&MessageContent::MultiModal(vec![]));
    assert!(empty.is_empty());
    let wire = message_to_proto(&Message::User(MessageContent::Text("plain".to_string())));
    assert_eq!(wire.role, proto::MessageRole::RoleUser as i32);
    assert_eq!(text_of(&wire.content[0]), "plain");
}

#[test]
fn test_response_without_outputs_fails() {
    let error = proto_to_response(wire_response(vec![])).unwrap_err();
    assert_eq!(invalid_request(error), "Response has no outputs");
}

#[test]
fn test_response_without_message_fails() {
    let error = proto_to_response(wire_response(vec![wire_output(3, None)])).unwrap_err();
    assert_eq!(invalid_request(error), "Output has no message");
    // only the first output decides
    let wire = wire_response(vec![wire_output(3, None), wire_output(3, Some(wire_message("x")))]);
    let error = proto_to_response(wire).unwrap_err();
    assert_eq!(invalid_request(error), "Output has no message");
}

#[test]
fn test_response_assembly() {
    let mut message = wire_message("Hello, world!");
    message.reasoning_content = "First, I considered...".to_string();
    message.tool_calls = vec![
        wire_call("call_1", "a"),
        proto::ToolCall { tool: None, ..wire_call("skipped", "x") },
        wire_call("call_2", "b"),
    ];
    let mut output = wire_output(4, Some(message));
    output.logprobs = Some(proto::LogProbs {
        content: vec![proto::LogProb {
            token: "hello".to_string(),
            logprob: num(-0.5),
            bytes: vec![104, 101, 108, 108, 111],
            top_logprobs: vec![
                proto::TopLogProb { token: "hi".to_string(), logprob: num(-1.0), bytes: vec![104, 105] },
                proto::TopLogProb { token: "hey".to_string(), logprob: num(-1.5), bytes: vec![104, 101, 121] },
            ],
        }],
    });
    let response = proto_to_response(wire_response(vec![output, wire_output(3, None)])).unwrap();
    assert_eq!(response.request_id, "req_1");
    assert_eq!(response.content, "Hello, world!");
    assert!(matches!(response.finish_reason, FinishReason::ToolCalls));
    assert_eq!(response.model, "grok-2");
    assert_eq!(response.usage.prompt_tokens, 10);
    assert_eq!(response.usage.completion_tokens, 5);
    assert_eq!(response.usage.total_tokens, 15);
    assert_eq!(response.citations, vec!["https://example.com"]);
    assert_eq!(response.tool_calls.len(), 2);
    assert_eq!(response.tool_calls[0].id, "call_1");
    assert_eq!(response.tool_calls[0].function.name, "a");
    assert_eq!(response.tool_calls[0].call_type, ToolCallKind::ClientSideTool);
    assert_eq!(response.tool_calls[0].status, ToolCallStatusKind::Completed);
    assert_eq!(response.tool_calls[1].id, "call_2");
    assert_eq!(response.reasoning_content, Some("First, I considered...".to_string()));
    let logprobs = response.logprobs.unwrap();
    assert_eq!(logprobs.content.len(), 1);
    assert_eq!(logprobs.content[0].token, "hello");
    assert_eq!(val(logprobs.content[0].logprob), -0.5);
    assert_eq!(logprobs.content[0].bytes, vec![104, 101, 108, 108, 111]);
    assert_eq!(logprobs.content[0].top_logprobs.len(), 2);
    assert_eq!(logprobs.content[0].top_logprobs[0].token, "hi");
    assert_eq!(val(logprobs.content[0].top_logprobs[1].logprob), -1.5);
    assert_eq!(logprobs.content[0].top_logprobs[1].bytes, vec![104, 101, 121]);
    assert_eq!(response.created, Some(1700000000));
    assert_eq!(response.system_fingerprint, Some("fp_1".to_string()));
}

#[test]
fn test_response_empty_texts_are_absent() {
    let mut wire = wire_response(vec![wire_output(3, Some(wire_message("")))]);
    wire.system_fingerprint = String::new();
    wire.usage = None;
    wire.created = None;
    wire.citations = vec![];
    let response = proto_to_response(wire).unwrap();
    assert_eq!(response.content, "");
    assert_eq!(response.reasoning_content, None);
    assert_eq!(response.system_fingerprint, None);
    assert_eq!(response.created, None);
    assert_eq!(response.usage.prompt_tokens, 0);
    assert_eq!(response.usage.completion_tokens, 0);
    assert_eq!(response.usage.total_tokens, 0);
    assert!(response.logprobs.is_none());
    assert!(response.tool_calls.is_empty());
    assert!(response.citations.is_empty());
    assert!(matches!(response.finish_reason, FinishReason::Stop));
}

#[test]
fn test_negative_token_counts_wrap() {
    let mut wire = wire_response(vec![wire_output(3, Some(wire_message("x")))]);
    wire.usage.as_mut().unwrap().prompt_tokens = -1;
    wire.usage.as_mut().unwrap().total_tokens = i32::MIN;
    let response = proto_to_response(wire).unwrap();
    assert_eq!(response.usage.prompt_tokens, u32::MAX);
    assert_eq!(response.usage.total_tokens, 0x8000_0000);
}

fn wire_chunk(outputs: Vec<proto::CompletionOutputChunk>) -> proto::GetChatCompletionChunk {
    proto::GetChatCompletionChunk {
        id: "req_1".to_string(),
        outputs,
        created: None,
        model: "grok-2".to_string(),
        system_fingerprint: String::new(),
        usage: None,
        citations: vec![],
    }
}

#[test]
fn test_chunk_while_streaming_has_no_finish_reason() {
    let chunk = wire_chunk(vec![proto::CompletionOutputChunk {
        delta: Some(proto::Delta {
            content: "Hel".to_string(),
            reasoning_content: String::new(),
            tool_calls: vec![],
        }),
        logprobs: None,
        finish_reason: 0,
    }]);
    let chunk = proto_chunk_to_chunk(chunk).unwrap();
    assert_eq!(chunk.delta, "Hel");
    assert!(chunk.finish_reason.is_none());
    assert!(chunk.reasoning_delta.is_none());
    assert!(chunk.tool_calls.is_empty());
    assert!(chunk.logprobs.is_none());
    assert!(chunk.citations.is_empty());
    assert_eq!(chunk.cumulative_usage.total_tokens, 0);
}

#[test]
fn test_last_chunk() {
    let mut wire = wire_chunk(vec![proto::CompletionOutputChunk {
        delta: Some(proto::Delta {
            content: "lo".to_string(),
            reasoning_content: "thinking".to_string(),
            tool_calls: vec![wire_call("call_1", "a")],
        }),
        logprobs: Some(proto::LogProbs { content: vec![] }),
        finish_reason: 3,
    }]);
    wire.citations = vec!["c".to_string()];
    wire.usage = Some(proto::SamplingUsage {
        completion_tokens: 2,
        reasoning_tokens: 0,
        prompt_tokens: 3,
        total_tokens: 5,
        prompt_text_tokens: 3,
        cached_prompt_text_tokens: 0,
        prompt_image_tokens: 0,
        num_sources_used: 0,
        server_side_tools_used: vec![],
    });
    let chunk = proto_chunk_to_chunk(wire).unwrap();
    assert_eq!(chunk.delta, "lo");
    assert!(matches!(chunk.finish_reason, Some(FinishReason::Stop)));
    assert_eq!(chunk.reasoning_delta, Some("thinking".to_string()));
    assert_eq!(chunk.tool_calls.len(), 1);
    assert_eq!(chunk.tool_calls[0].id, "call_1");
    assert_eq!(chunk.logprobs.unwrap().content.len(), 0);
    assert_eq!(chunk.citations, vec!["c"]);
    assert_eq!(chunk.cumulative_usage.prompt_tokens, 3);
    assert_eq!(chunk.cumulative_usage.completion_tokens, 2);
    assert_eq!(chunk.cumulative_usage.total_tokens, 5);
}

#[test]
fn test_chunk_with_unknown_finish_code_and_no_delta() {
    let chunk = wire_chunk(vec![proto::CompletionOutputChunk {
        delta: None,
        logprobs: None,
        finish_reason: 99,
    }]);
    let chunk = proto_chunk_to_chunk(chunk).unwrap();
    assert_eq!(chunk.delta, "");
    assert!(matches!(chunk.finish_reason, Some(FinishReason::Unknown)));
    assert!(chunk.reasoning_delta.is_none());
    assert!(chunk.tool_calls.is_empty());
}

#[test]
fn test_chunk_without_outputs() {
    let mut wire = wire_chunk(vec![]);
    wire.citations = vec!["kept".to_string()];
    let chunk = proto_chunk_to_chunk(wire).unwrap();
    assert_eq!(chunk.delta, "");
    assert!(chunk.finish_reason.is_none());
    assert_eq!(chunk.citations, vec!["kept"]);
}

fn feature(floats: Vec<f32>, base64: &str) -> proto::FeatureVector {
    proto::FeatureVector {
        float_array: floats.into_iter().map(num).collect(),
        base64_array: base64.to_string(),
    }
}

fn embed_response(embeddings: Vec<proto::Embedding>) -> proto::EmbedResponse {
    proto::EmbedResponse {
        id: "emb_1".to_string(),
        embeddings,
        usage: Some(proto::EmbeddingUsage { num_text_embeddings: 2, num_image_embeddings: 1 }),
        model: "embed-large-v1".to_string(),
        system_fingerprint: "fp".to_string(),
    }
}

#[test]
fn test_embedding_float_array_is_returned_as_it_is() {
    let values = vec![0.5, -1.25, 3.0, f32::MAX, 0.0];
    let wire = embed_response(vec![proto::Embedding {
        index: 3,
        embeddings: vec![feature(values.clone(), "ignored, the numbers win")],
    }]);
    let response = proto_to_embed_response(wire).unwrap();
    assert_eq!(response.id, "emb_1");
    assert_eq!(response.model, "embed-large-v1");
    assert_eq!(response.system_fingerprint, "fp");
    assert_eq!(response.usage.num_text_embeddings, 2);
    assert_eq!(response.usage.num_image_embeddings, 1);
    assert_eq!(response.embeddings.len(), 1);
    assert_eq!(response.embeddings[0].index, 3);
    assert_eq!(floats(&response.embeddings[0].vector), values);
}

#[test]
fn test_embedding_base64_of_eight_bytes_gives_two_floats() {
    // 1.0 and -2.0 as little-endian binary32: 00 00 80 3f 00 00 00 c0
    let wire = embed_response(vec![proto::Embedding {
        index: 0,
        embeddings: vec![feature(vec![], "AACAPwAAAMA=")],
    }]);
    let response = proto_to_embed_response(wire).unwrap();
    assert_eq!(floats(&response.embeddings[0].vector), vec![1.0, -2.0]);
    assert_eq!(floats(&decode_base64_embedding("AACAPwAAAMA=").unwrap()), vec![1.0, -2.0]);
}

#[test]
fn test_embedding_base64_of_seven_bytes_fails() {
    // the first seven of the bytes above
    let error = decode_base64_embedding("AACAPwAAAA==").unwrap_err();
    assert_eq!(invalid_request(error), "embedding byte length not divisible by 4");
    let wire = embed_response(vec![proto::Embedding {
        index: 0,
        embeddings: vec![feature(vec![], "AACAPwAAAA==")],
    }]);
    let error = proto_to_embed_response(wire).unwrap_err();
    assert_eq!(invalid_request(error), "embedding byte length not divisible by 4");
}

#[test]
fn test_embedding_with_neither_encoding_fails() {
    let wire = embed_response(vec![proto::Embedding { index: 0, embeddings: vec![feature(vec![], "")] }]);
    let error = proto_to_embed_response(wire).unwrap_err();
    assert_eq!(invalid_request(error), "embedding had neither float nor base64 array");
}

#[test]
fn test_embedding_without_feature_vector_fails() {
    let wire = embed_response(vec![
        proto::Embedding { index: 0, embeddings: vec![feature(vec![1.0], "")] },
        proto::Embedding { index: 1, embeddings: vec![] },
    ]);
    let error = proto_to_embed_response(wire).unwrap_err();
    assert_eq!(invalid_request(error), "missing embedding vector");
}

#[test]
fn test_embedding_invalid_base64_fails() {
    for text in ["not base64!", "AACAPwAAAMA", "AACAPwAAAM==", "A"] {
        let reason = base64::engine::general_purpose::STANDARD.decode(text).unwrap_err();
        let error = decode_base64_embedding(text).unwrap_err();
        assert_eq!(invalid_request(error), format!("invalid base64 embedding: {reason}"));
    }
    let error = decode_base64_embedding("not base64!").unwrap_err();
    assert_eq!(invalid_request(error), "invalid base64 embedding: Invalid symbol 32, offset 3.");
}

#[test]
fn test_first_failing_embedding_decides() {
    let wire = embed_response(vec![
        proto::Embedding { index: 0, embeddings: vec![feature(vec![], "AACAPwAAAA==")] },
        proto::Embedding { index: 1, embeddings: vec![] },
    ]);
    let error = proto_to_embed_response(wire).unwrap_err();
    assert_eq!(invalid_request(error), "embedding byte length not divisible by 4");
}

#[test]
fn test_embed_response_without_usage_and_embeddings() {
    let mut wire = embed_response(vec![]);
    wire.usage = None;
    let response = proto_to_embed_response(wire).unwrap();
    assert!(response.embeddings.is_empty());
    assert_eq!(response.usage.num_text_embeddings, 0);
    assert_eq!(response.usage.num_image_embeddings, 0);
}

#[test]
fn test_floats_from_le_bytes() {
    let bytes: Vec<u8> = [1.5f32, -0.0, f32::INFINITY, 1.0e-40]
        .iter()
        .flat_map(|x| x.to_le_bytes())
        .collect();
    let decoded = floats_from_le_bytes(&bytes).unwrap();
    let bits: Vec<u32> = decoded.iter().map(|x| x.to_bits()).collect();
    assert_eq!(
        bits,
        vec![1.5f32.to_bits(), (-0.0f32).to_bits(), f32::INFINITY.to_bits(), 1.0e-40f32.to_bits()]
    );
    assert!(floats_from_le_bytes(&[]).unwrap().is_empty());
    assert_eq!(floats_from_le_bytes(&[0x78, 0x56, 0x34, 0x12]).unwrap()[0].to_bits(), 0x1234_5678);
    assert_eq!(floats_from_le_bytes(&[0xff; 4]).unwrap()[0].to_bits(), u32::MAX);
    for len in [1usize, 2, 3, 5, 6, 7, 9] {
        let error = floats_from_le_bytes(&vec![0u8; len]).unwrap_err();
        assert_eq!(invalid_request(error), "embedding byte length not divisible by 4");
    }
}

#[test]
fn test_negative_embedding_index_wraps() {
    let wire = embed_response(vec![proto::Embedding { index: -1, embeddings: vec![feature(vec![1.0], "")] }]);
    let response = proto_to_embed_response(wire).unwrap();
    assert_eq!(response.embeddings[0].index, usize::MAX);
    assert_eq!(response.embeddings[0].index, -1i32 as usize);
}

#[test]
fn test_embed_request_to_proto() {
    let request = EmbedRequest::new("embed-multimodal-v1")
        .add_text("Description")
        .add_image("https://example.com/img.jpg")
        .add_image_with_detail("https://example.com/img2.jpg", ImageDetail::Low)
        .with_encoding_format(EmbedEncodingFormat::Base64)
        .with_user("user123");
    let wire = embed_request_to_proto(&request);
    assert_eq!(wire.model, "embed-multimodal-v1");
    assert_eq!(wire.user, "user123");
    assert_eq!(wire.encoding_format, proto::EmbedEncodingFormat::FormatBase64 as i32);
    assert_eq!(wire.input.len(), 3);
    assert!(matches!(&wire.input[0].input, Some(proto::embed_input::Input::String(t)) if t == "Description"));
    assert!(matches!(
        &wire.input[1].input,
        Some(proto::embed_input::Input::ImageUrl(i))
            if i.image_url == "https://example.com/img.jpg" && i.detail == proto::ImageDetail::DetailAuto as i32
    ));
    assert!(matches!(
        &wire.input[2].input,
        Some(proto::embed_input::Input::ImageUrl(i)) if i.detail == proto::ImageDetail::DetailLow as i32
    ));
    let wire = embed_request_to_proto(&EmbedRequest::new("m"));
    assert_eq!(wire.user, "");
    assert_eq!(wire.encoding_format, proto::EmbedEncodingFormat::FormatFloat as i32);
    assert!(wire.input.is_empty());
}

#[test]
fn test_no_temperature_out_of_range_reaches_the_wire() {
    for given in [f32::NAN, -1.0, 0.0, 1.0, 2.0, 2.5, f32::INFINITY, f32::NEG_INFINITY] {
        let request = ChatRequest::new().with_temperature(num(given)).with_top_p(num(given));
        let wire = to_proto_request("m", &request).unwrap();
        let temperature = wire.temperature.map(val).unwrap();
        let top_p = wire.top_p.map(val).unwrap();
        assert!((0.0..=2.0).contains(&temperature), "{given} gave {temperature}");
        assert!((0.0..=1.0).contains(&top_p), "{given} gave {top_p}");
    }
}
