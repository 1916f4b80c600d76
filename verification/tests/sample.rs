use xai_grpc_client::proto;
use xai_grpc_client::{Float32, SampleChoice, SampleRequest, SampleResponse};

fn num(x: f32) -> Float32 {
    Float32::from_bits(x.to_bits())
}

fn val(x: Float32) -> f32 {
    f32::from_bits(x.to_bits())
}

#[test]
fn test_sample_request_builder() {
    let request = SampleRequest::new("grok-2-1212")
        .add_prompt("Hello, world!")
        .add_prompt("How are you?")
        .with_n(3)
        .with_max_tokens(100)
        .with_temperature(num(0.8));

    assert_eq!(request.model, "grok-2-1212");
    assert_eq!(request.prompts.len(), 2);
    assert_eq!(request.prompts[0], "Hello, world!");
    assert_eq!(request.prompts[1], "How are you?");
    assert_eq!(request.n, Some(3));
    assert_eq!(request.max_tokens, Some(100));
    assert_eq!(request.temperature.map(val), Some(0.8));
}

#[test]
fn test_sample_request_minimal() {
    let request = SampleRequest::new("grok-beta");

    assert_eq!(request.model, "grok-beta");
    assert_eq!(request.prompts.len(), 0);
    assert_eq!(request.n, None);
    assert_eq!(request.max_tokens, None);
    assert!(request.temperature.is_none());
    assert!(!request.logprobs);
}

#[test]
fn test_sample_choice_from_proto() {
    let proto_choice = proto::SampleChoice {
        finish_reason: proto::FinishReason::ReasonStop as i32,
        index: 0,
        text: "Hello there!".to_string(),
    };

    let choice: SampleChoice = proto_choice.into();
    assert_eq!(choice.index, 0);
    assert_eq!(choice.text, "Hello there!");
    assert_eq!(choice.finish_reason, "stop");
}

#[test]
fn test_sample_choice_finish_reasons() {
    let test_cases = vec![
        (proto::FinishReason::ReasonStop, "stop"),
        (proto::FinishReason::ReasonMaxLen, "length"),
        (proto::FinishReason::ReasonMaxContext, "max_context"),
        (proto::FinishReason::ReasonToolCalls, "tool_calls"),
        (proto::FinishReason::ReasonTimeLimit, "time_limit"),
        (proto::FinishReason::ReasonInvalid, "unknown"),
    ];

    for (proto_reason, expected_str) in test_cases {
        let proto_choice = proto::SampleChoice {
            finish_reason: proto_reason as i32,
            index: 0,
            text: "test".to_string(),
        };

        let choice: SampleChoice = proto_choice.into();
        assert_eq!(choice.finish_reason, expected_str);
    }
}

#[test]
fn test_sample_response_from_proto() {
    let proto_response = proto::SampleTextResponse {
        id: "req-123".to_string(),
        choices: vec![
            proto::SampleChoice {
                finish_reason: proto::FinishReason::ReasonStop as i32,
                index: 0,
                text: "First choice".to_string(),
            },
            proto::SampleChoice {
                finish_reason: proto::FinishReason::ReasonMaxLen as i32,
                index: 1,
                text: "Second choice".to_string(),
            },
        ],
        created: None,
        model: "grok-2-1212".to_string(),
        system_fingerprint: "fp_test".to_string(),
        usage: Some(proto::SamplingUsage {
            prompt_tokens: 10,
            completion_tokens: 20,
            total_tokens: 30,
            cached_prompt_text_tokens: 0,
            num_sources_used: 0,
            prompt_image_tokens: 0,
            reasoning_tokens: 0,
            prompt_text_tokens: 10,
            server_side_tools_used: vec![],
        }),
    };

    let response: SampleResponse = proto_response.into();
    assert_eq!(response.id, "req-123");
    assert_eq!(response.model, "grok-2-1212");
    assert_eq!(response.total_tokens, 30);
    assert_eq!(response.choices.len(), 2);
    assert_eq!(response.choices[0].text, "First choice");
    assert_eq!(response.choices[1].text, "Second choice");
}

#[test]
fn test_sample_request_clone() {
    let request = SampleRequest::new("grok-2-1212")
        .add_prompt("Test")
        .with_max_tokens(100);

    let cloned = request.clone();
    assert_eq!(cloned.model, request.model);
    assert_eq!(cloned.prompts, request.prompts);
    assert_eq!(cloned.max_tokens, request.max_tokens);
}
