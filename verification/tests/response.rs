use xai_grpc_client::{
    ChatChunk, ChatResponse, FinishReason, Float32, LogProb, LogProbs, TokenUsage, TopLogProb,
};

fn num(x: f32) -> Float32 {
    Float32::from_bits(x.to_bits())
}

#[test]
fn test_token_usage_default() {
    let usage = TokenUsage::default();
    assert_eq!(usage.prompt_tokens, 0);
    assert_eq!(usage.completion_tokens, 0);
    assert_eq!(usage.total_tokens, 0);
}

#[test]
fn test_finish_reason_display() {
    assert_eq!(FinishReason::Stop.to_string(), "stop");
    assert_eq!(FinishReason::Length.to_string(), "length");
    assert_eq!(FinishReason::ToolCalls.to_string(), "tool_calls");
    assert_eq!(FinishReason::ContentFilter.to_string(), "content_filter");
    assert_eq!(
        FinishReason::Error("timeout".to_string()).to_string(),
        "error: timeout"
    );
    assert_eq!(FinishReason::Unknown.to_string(), "unknown");
}

#[test]
fn test_chat_response_creation() {
    let response = ChatResponse {
        request_id: "req_123".to_string(),
        content: "Hello, world!".to_string(),
        finish_reason: FinishReason::Stop,
        model: "grok-2".to_string(),
        usage: TokenUsage {
            prompt_tokens: 10,
            completion_tokens: 5,
            total_tokens: 15,
        },
        citations: vec!["https://example.com".to_string()],
        tool_calls: vec![],
        reasoning_content: None,
        logprobs: None,
        created: Some(1234567890),
        system_fingerprint: Some("fp_abc123".to_string()),
    };

    assert_eq!(response.request_id, "req_123");
    assert_eq!(response.content, "Hello, world!");
    assert_eq!(response.usage.total_tokens, 15);
    assert_eq!(response.citations.len(), 1);
}

#[test]
fn test_chat_chunk() {
    let chunk = ChatChunk {
        delta: "Hello".to_string(),
        finish_reason: None,
        cumulative_usage: TokenUsage {
            prompt_tokens: 5,
            completion_tokens: 1,
            total_tokens: 6,
        },
        reasoning_delta: None,
        tool_calls: vec![],
        logprobs: None,
        citations: vec![],
    };

    assert_eq!(chunk.delta, "Hello");
    assert!(chunk.finish_reason.is_none());
    assert_eq!(chunk.cumulative_usage.total_tokens, 6);
}

#[test]
fn test_log_probs() {
    let logprobs = LogProbs {
        content: vec![LogProb {
            token: "hello".to_string(),
            logprob: num(-0.5),
            bytes: vec![104, 101, 108, 108, 111],
            top_logprobs: vec![
                TopLogProb {
                    token: "hi".to_string(),
                    logprob: num(-1.0),
                    bytes: vec![104, 105],
                },
                TopLogProb {
                    token: "hey".to_string(),
                    logprob: num(-1.5),
                    bytes: vec![104, 101, 121],
                },
            ],
        }],
    };

    assert_eq!(logprobs.content.len(), 1);
    assert_eq!(logprobs.content[0].token, "hello");
    assert_eq!(logprobs.content[0].top_logprobs.len(), 2);
}

#[test]
fn test_response_with_reasoning() {
    let response = ChatResponse {
        request_id: "req_456".to_string(),
        content: "The answer is 42".to_string(),
        finish_reason: FinishReason::Stop,
        model: "grok-2".to_string(),
        usage: TokenUsage::default(),
        citations: vec![],
        tool_calls: vec![],
        reasoning_content: Some("First, I considered...".to_string()),
        logprobs: None,
        created: None,
        system_fingerprint: None,
    };

    assert!(response.reasoning_content.is_some());
    assert_eq!(
        response.reasoning_content.unwrap(),
        "First, I considered..."
    );
}
