use std::time::Duration;
use xai_grpc_client::auth::{AuthInterceptor, AUTHORIZATION_HEADER};
use xai_grpc_client::client::config::{channel_settings, connection_test_reply, connection_test_request};
use xai_grpc_client::error::EnvVarError;
use xai_grpc_client::proto;
use xai_grpc_client::text::decimal;
use xai_grpc_client::{GrokConfig, GrokError, Secret};

fn config_error(error: GrokError) -> String {
    match error {
        GrokError::Config(message) => message,
        other => panic!("expected a configuration error, got {other:?}"),
    }
}

fn key(text: &str) -> Secret {
    Secret::new(text.to_string())
}

#[test]
fn test_default_config() {
    let config = GrokConfig::default();
    assert_eq!(config.endpoint, "https://api.x.ai");
    assert_eq!(config.api_key.expose(), "");
    assert!(config.api_key.is_empty());
    assert_eq!(config.default_model, "grok-code-fast-1");
    assert_eq!(config.timeout, Duration::from_secs(60));
}

#[test]
fn test_config_with_api_key() {
    let config = GrokConfig::with_api_key(key("xai-key"));
    assert_eq!(config.api_key.expose(), "xai-key");
    assert!(!config.api_key.is_empty());
    assert_eq!(config.endpoint, "https://api.x.ai");
    let copy = config.clone();
    assert_eq!(copy.api_key.expose(), "xai-key");
}

#[test]
fn test_secret_is_not_shown() {
    let secret = key("xai-very-secret");
    let shown = format!("{secret:?}");
    assert!(!shown.contains("very-secret"), "{shown}");
}

#[test]
fn test_channel_settings_of_default_endpoint() {
    let mut config = GrokConfig::with_api_key(key("xai-key"));
    config.timeout = Duration::from_secs(120);
    let settings = channel_settings(&config).unwrap();
    assert_eq!(settings.endpoint, "https://api.x.ai");
    assert_eq!(settings.domain_name, "api.x.ai");
    assert_eq!(settings.timeout, Duration::from_secs(120));
    assert_eq!(settings.tcp_keepalive, Duration::from_secs(30));
    assert_eq!(settings.http2_keep_alive_interval, Duration::from_secs(30));
    assert_eq!(settings.keep_alive_timeout, Duration::from_secs(10));
}

#[test]
fn test_channel_settings_host_of_other_endpoints() {
    let mut config = GrokConfig::with_api_key(key("k"));
    config.endpoint = "https://user@Example.COM:8443/path?q=1".to_string();
    assert_eq!(channel_settings(&config).unwrap().domain_name, "example.com");
    config.endpoint = "http://127.0.0.1:50051".to_string();
    assert_eq!(channel_settings(&config).unwrap().domain_name, "127.0.0.1");
}

#[test]
fn test_empty_api_key_is_refused_first() {
    let mut config = GrokConfig::default();
    assert_eq!(config_error(channel_settings(&config).unwrap_err()), "API key is empty");
    config.endpoint = "not a url".to_string();
    assert_eq!(config_error(channel_settings(&config).unwrap_err()), "API key is empty");
}

#[test]
fn test_invalid_endpoint_is_refused() {
    let mut config = GrokConfig::with_api_key(key("k"));
    config.endpoint = "not a url".to_string();
    assert_eq!(
        config_error(channel_settings(&config).unwrap_err()),
        "Invalid endpoint URL: relative URL without a base"
    );
    config.endpoint = "https://".to_string();
    let message = config_error(channel_settings(&config).unwrap_err());
    assert!(message.starts_with("Invalid endpoint URL: "), "{message}");
}

#[test]
fn test_endpoint_without_host_is_refused() {
    let mut config = GrokConfig::with_api_key(key("k"));
    config.endpoint = "unix:/run/foo.socket".to_string();
    assert_eq!(
        config_error(channel_settings(&config).unwrap_err()),
        "Endpoint URL does not contain a valid host"
    );
}

#[test]
fn test_bearer_header() {
    assert_eq!(AUTHORIZATION_HEADER, "authorization");
    let interceptor = AuthInterceptor::new(key("xai-key"));
    assert_eq!(interceptor.header_value(), "Bearer xai-key");
    assert_eq!(interceptor.clone().header_value(), "Bearer xai-key");
    assert_eq!(AuthInterceptor::new(key("")).header_value(), "Bearer ");
}

#[test]
fn test_connection_test_request() {
    let wire = connection_test_request("grok-code-fast-1");
    assert_eq!(wire.model, "grok-code-fast-1");
    assert_eq!(wire.max_tokens, Some(50));
    assert_eq!(wire.messages.len(), 1);
    assert_eq!(wire.messages[0].role, proto::MessageRole::RoleUser as i32);
    assert!(matches!(
        &wire.messages[0].content[0].content,
        Some(proto::content::Content::Text(text)) if text == "Say 'Hello from gRPC!' in one sentence."
    ));
    assert!(wire.temperature.is_none());
    assert!(wire.tools.is_empty());
    assert_eq!(wire.user, "");
}

#[test]
fn test_connection_test_reply() {
    let mut wire = proto::GetChatCompletionResponse {
        id: "r".to_string(),
        outputs: vec![proto::CompletionOutput {
            finish_reason: 3,
            message: Some(proto::CompletionMessage {
                content: "Hello from gRPC!".to_string(),
                reasoning_content: String::new(),
                tool_calls: vec![],
            }),
            logprobs: None,
        }],
        created: None,
        model: "m".to_string(),
        system_fingerprint: String::new(),
        usage: None,
        citations: vec![],
    };
    assert_eq!(connection_test_reply(&wire).unwrap(), "Hello from gRPC!");
    wire.outputs[0].message = None;
    assert!(matches!(
        connection_test_reply(&wire),
        Err(GrokError::InvalidRequest(message)) if message == "No content in response"
    ));
    wire.outputs.clear();
    assert!(matches!(
        connection_test_reply(&wire),
        Err(GrokError::InvalidRequest(message)) if message == "No content in response"
    ));
}

#[test]
fn test_error_messages() {
    assert_eq!(GrokError::InvalidRequest("bad".to_string()).to_string(), "Invalid request: bad");
    assert_eq!(GrokError::Config("missing".to_string()).to_string(), "Configuration error: missing");
    assert_eq!(
        GrokError::EnvVar(EnvVarError::NotPresent).to_string(),
        "Environment variable not set: environment variable not found"
    );
    assert_eq!(
        GrokError::EnvVar(EnvVarError::NotUnicode("\"\\xFF\"".to_string())).to_string(),
        "Environment variable not set: environment variable was not valid unicode: \"\\xFF\""
    );
    for n in [0u64, 9, 10, 99, 100, 120, 1_000_000, u64::MAX] {
        assert_eq!(
            GrokError::RateLimit { retry_after_secs: n }.to_string(),
            format!("Rate limit exceeded, retry after {n} seconds")
        );
        assert_eq!(decimal(n), format!("{n}"));
    }
    let status = tonic::Status::unavailable("service unavailable");
    let expected = format!("gRPC status error: {status}");
    assert_eq!(GrokError::Status(status).to_string(), expected);
    assert!(expected.contains("service unavailable"));
}

#[test]
fn test_invalid_header_error_message() {
    let error = "bad\nvalue"
        .parse::<tonic::metadata::MetadataValue<tonic::metadata::Ascii>>()
        .unwrap_err();
    let error = GrokError::InvalidHeaderValue(error);
    assert_eq!(error.to_string(), "Invalid header value: failed to parse metadata value");
    assert!(!error.is_retryable());
    assert_eq!(error.retry_after(), None);
}

#[test]
fn test_retryable_status_codes() {
    let retryable = [tonic::Code::Unavailable, tonic::Code::DeadlineExceeded, tonic::Code::ResourceExhausted];
    let all = [
        tonic::Code::Ok,
        tonic::Code::Cancelled,
        tonic::Code::Unknown,
        tonic::Code::InvalidArgument,
        tonic::Code::DeadlineExceeded,
        tonic::Code::NotFound,
        tonic::Code::AlreadyExists,
        tonic::Code::PermissionDenied,
        tonic::Code::ResourceExhausted,
        tonic::Code::FailedPrecondition,
        tonic::Code::Aborted,
        tonic::Code::OutOfRange,
        tonic::Code::Unimplemented,
        tonic::Code::Internal,
        tonic::Code::Unavailable,
        tonic::Code::DataLoss,
        tonic::Code::Unauthenticated,
    ];
    for code in all {
        let error = GrokError::Status(tonic::Status::new(code, "x"));
        assert_eq!(error.is_retryable(), retryable.contains(&code), "{code:?}");
    }
    assert!(!GrokError::EnvVar(EnvVarError::NotPresent).is_retryable());
}

#[test]
fn test_transport_error_is_retryable_and_shown() {
    let error = tonic::transport::Endpoint::from_shared("not a uri").unwrap_err();
    let shown = format!("gRPC transport error: {error}");
    let error = GrokError::Transport(error);
    assert!(error.is_retryable());
    assert_eq!(error.retry_after(), None);
    assert_eq!(error.to_string(), shown);
    assert!(shown.len() > "gRPC transport error: ".len());
}

#[test]
fn test_channel_settings_clone() {
    let settings = channel_settings(&GrokConfig::with_api_key(key("k"))).unwrap();
    let copy = settings.clone();
    assert_eq!(copy.domain_name, "api.x.ai");
    assert_eq!(copy.timeout, Duration::from_secs(60));
    assert_eq!(copy.keep_alive_timeout, Duration::from_secs(10));
}
