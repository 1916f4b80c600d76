use xai_grpc_client::{Token, TokenizeRequest, TokenizeResponse};

#[test]
fn test_tokenize_request_builder() {
    let request = TokenizeRequest::new("grok-2-1212")
        .with_text("Hello, world!")
        .with_user("user-123");

    assert_eq!(request.model, "grok-2-1212");
    assert_eq!(request.text, "Hello, world!");
    assert_eq!(request.user, Some("user-123".to_string()));
}

#[test]
fn test_tokenize_request_minimal() {
    let request = TokenizeRequest::new("grok-2-1212");

    assert_eq!(request.model, "grok-2-1212");
    assert_eq!(request.text, "");
    assert_eq!(request.user, None);
}

#[test]
fn test_tokenize_request_without_user() {
    let request = TokenizeRequest::new("grok-2-1212")
        .with_text("Hello!");

    assert_eq!(request.model, "grok-2-1212");
    assert_eq!(request.text, "Hello!");
    assert_eq!(request.user, None);
}

#[test]
fn test_token_equality() {
    let token1 = Token {
        token_id: 42,
        string_token: "hello".to_string(),
        token_bytes: vec![104, 101, 108, 108, 111],
    };

    let token2 = Token {
        token_id: 42,
        string_token: "hello".to_string(),
        token_bytes: vec![104, 101, 108, 108, 111],
    };

    assert_eq!(token1, token2);
}

#[test]
fn test_tokenize_response_token_count() {
    let response = TokenizeResponse {
        tokens: vec![
            Token {
                token_id: 1,
                string_token: "Hello".to_string(),
                token_bytes: vec![72, 101, 108, 108, 111],
            },
            Token {
                token_id: 2,
                string_token: ", ".to_string(),
                token_bytes: vec![44, 32],
            },
            Token {
                token_id: 3,
                string_token: "world".to_string(),
                token_bytes: vec![119, 111, 114, 108, 100],
            },
        ],
        model: "grok-2-1212".to_string(),
    };

    assert_eq!(response.token_count(), 3);
}

#[test]
fn test_tokenize_response_text() {
    let response = TokenizeResponse {
        tokens: vec![
            Token {
                token_id: 1,
                string_token: "Hello".to_string(),
                token_bytes: vec![72, 101, 108, 108, 111],
            },
            Token {
                token_id: 2,
                string_token: ", ".to_string(),
                token_bytes: vec![44, 32],
            },
            Token {
                token_id: 3,
                string_token: "world".to_string(),
                token_bytes: vec![119, 111, 114, 108, 100],
            },
        ],
        model: "grok-2-1212".to_string(),
    };

    assert_eq!(response.text(), "Hello, world");
}

#[test]
fn test_tokenize_response_empty() {
    let response = TokenizeResponse {
        tokens: vec![],
        model: "grok-2-1212".to_string(),
    };

    assert_eq!(response.token_count(), 0);
    assert_eq!(response.text(), "");
}
