//! Configuration of the client, and what is derived from it before a
//! connection is made.

use vstd::prelude::*;
use std::time::Duration;
use crate::client::conversions::request_to_proto;
use crate::endpoint::{display_parse_error, host_text, parse_error_text, parse_url, parsed_host};
use crate::error::{GrokError, GrokErrorView};
use crate::proto;
use crate::request::{ChatRequest, ChatRequestView, MessageContentView, MessageView};
use crate::secret::Secret;
use crate::text::concat;
use crate::timing::duration_nanos;

verus! {

/// Endpoint of the service.
pub const DEFAULT_ENDPOINT: &'static str = "https://api.x.ai";

/// Model used by requests that name none.
pub const DEFAULT_MODEL: &'static str = "grok-code-fast-1";

/// Request timeout, in seconds.
pub const DEFAULT_TIMEOUT_SECS: u64 = 60;

/// Interval of TCP and HTTP/2 keep-alive probes, in seconds.
pub const KEEP_ALIVE_INTERVAL_SECS: u64 = 30;

/// Time a keep-alive probe may stay unanswered, in seconds.
pub const KEEP_ALIVE_TIMEOUT_SECS: u64 = 10;

/// Question that the connection test asks.
pub const CONNECTION_TEST_PROMPT: &'static str = "Say 'Hello from gRPC!' in one sentence.";

/// Upper bound on the tokens of the answer to the connection test.
pub const CONNECTION_TEST_MAX_TOKENS: u32 = 50;

/// Settings of the client.
#[derive(Clone)]
pub struct GrokConfig {
    /// URL of the gRPC endpoint.
    pub endpoint: String,
    /// Credential sent with every call.
    pub api_key: Secret,
    /// Model used by requests that name none.
    pub default_model: String,
    /// Time after which a request is given up.
    pub timeout: Duration,
}

/// What a [`GrokConfig`] holds, as mathematical values.
pub struct GrokConfigView {
    pub endpoint: Seq<char>,
    pub api_key: Seq<char>,
    pub default_model: Seq<char>,
    pub timeout_nanos: nat,
}

impl View for GrokConfig {
    type V = GrokConfigView;

    open spec fn view(&self) -> GrokConfigView {
        GrokConfigView {
            endpoint: self.endpoint@,
            api_key: self.api_key@,
            default_model: self.default_model@,
            timeout_nanos: duration_nanos(self.timeout),
        }
    }
}

impl GrokConfigView {
    /// The settings of a client for which only the credential is given.
    pub open spec fn with_key(api_key: Seq<char>) -> GrokConfigView {
        GrokConfigView {
            endpoint: "https://api.x.ai"@,
            api_key: api_key,
            default_model: "grok-code-fast-1"@,
            timeout_nanos: 60 * 1_000_000_000,
        }
    }
}

impl GrokConfig {
    /// The default settings with the given credential.
    pub fn with_api_key(api_key: Secret) -> (config: GrokConfig)
        ensures
            config@ == GrokConfigView::with_key(api_key@),
    {
        GrokConfig {
            endpoint: DEFAULT_ENDPOINT.to_string(),
            api_key,
            default_model: DEFAULT_MODEL.to_string(),
            timeout: Duration::from_secs(DEFAULT_TIMEOUT_SECS),
        }
    }
}

impl Default for GrokConfig {
    /// The default settings, with an empty credential.
    fn default() -> (config: GrokConfig)
        ensures
            config@ == GrokConfigView::with_key(Seq::empty()),
    {
        GrokConfig::with_api_key(Secret::new(String::new()))
    }
}

/// How the channel to the service is set up.
#[derive(Clone, Debug)]
pub struct ChannelSettings {
    /// URL to connect to.
    pub endpoint: String,
    /// Name that the certificate of the service must carry: the host of the URL.
    pub domain_name: String,
    /// Time after which a request is given up.
    pub timeout: Duration,
    /// Interval of TCP keep-alive probes.
    pub tcp_keepalive: Duration,
    /// Interval of HTTP/2 keep-alive pings.
    pub http2_keep_alive_interval: Duration,
    /// Time a keep-alive ping may stay unanswered.
    pub keep_alive_timeout: Duration,
}

/// What a [`ChannelSettings`] holds, as mathematical values.
pub struct ChannelSettingsView {
    pub endpoint: Seq<char>,
    pub domain_name: Seq<char>,
    pub timeout_nanos: nat,
    pub tcp_keepalive_nanos: nat,
    pub http2_keep_alive_interval_nanos: nat,
    pub keep_alive_timeout_nanos: nat,
}

impl View for ChannelSettings {
    type V = ChannelSettingsView;

    open spec fn view(&self) -> ChannelSettingsView {
        ChannelSettingsView {
            endpoint: self.endpoint@,
            domain_name: self.domain_name@,
            timeout_nanos: duration_nanos(self.timeout),
            tcp_keepalive_nanos: duration_nanos(self.tcp_keepalive),
            http2_keep_alive_interval_nanos: duration_nanos(self.http2_keep_alive_interval),
            keep_alive_timeout_nanos: duration_nanos(self.keep_alive_timeout),
        }
    }
}

impl GrokConfigView {
    /// The channel settings that follow from the configuration, or the
    /// reason why the configuration cannot be used.
    ///
    /// An empty credential is refused first. Then the endpoint must be an
    /// absolute URL with a host; the host is the name that the certificate
    /// of the service is checked against.
    pub open spec fn channel_settings(self) -> Result<ChannelSettingsView, GrokErrorView> {
        if self.api_key.len() == 0 {
            Err(GrokErrorView::Config("API key is empty"@))
        } else {
            match parsed_host(self.endpoint) {
                Err(error) => Err(
                    GrokErrorView::Config("Invalid endpoint URL: "@ + parse_error_text(error)),
                ),
                Ok(None) => Err(
                    GrokErrorView::Config("Endpoint URL does not contain a valid host"@),
                ),
                Ok(Some(host)) => Ok(
                    ChannelSettingsView {
                        endpoint: self.endpoint,
                        domain_name: host,
                        timeout_nanos: self.timeout_nanos,
                        tcp_keepalive_nanos: 30 * 1_000_000_000,
                        http2_keep_alive_interval_nanos: 30 * 1_000_000_000,
                        keep_alive_timeout_nanos: 10 * 1_000_000_000,
                    },
                ),
            }
        }
    }
}

/// Derives the channel settings from the configuration.
pub fn channel_settings(config: &GrokConfig) -> (settings: Result<ChannelSettings, GrokError>)
    ensures
        match settings {
            Ok(settings) => config@.channel_settings() == Ok::<ChannelSettingsView, GrokErrorView>(
                settings@,
            ),
            Err(error) => config@.channel_settings() == Err::<ChannelSettingsView, GrokErrorView>(
                error@,
            ),
        },
{
    if config.api_key.is_empty() {
        return Err(GrokError::Config("API key is empty".to_string()));
    }
    let url = match parse_url(config.endpoint.as_str()) {
        Ok(url) => url,
        Err(error) => {
            let detail = display_parse_error(&error);
            return Err(GrokError::Config(concat("Invalid endpoint URL: ", detail.as_str())));
        },
    };
    let domain_name = match host_text(&url) {
        Some(host) => host.to_string(),
        None => {
            return Err(
                GrokError::Config("Endpoint URL does not contain a valid host".to_string()),
            );
        },
    };
    Ok(
        ChannelSettings {
            endpoint: config.endpoint.clone(),
            domain_name,
            timeout: config.timeout,
            tcp_keepalive: Duration::from_secs(KEEP_ALIVE_INTERVAL_SECS),
            http2_keep_alive_interval: Duration::from_secs(KEEP_ALIVE_INTERVAL_SECS),
            keep_alive_timeout: Duration::from_secs(KEEP_ALIVE_TIMEOUT_SECS),
        },
    )
}

/// The request of the connection test: one short question to the default
/// model, with a small bound on the answer.
pub open spec fn connection_test_request_view(default_model: Seq<char>) -> proto::GetCompletionsRequestView {
    (ChatRequestView {
        max_tokens: Some(50u32),
        ..ChatRequestView::empty().with_message(
            MessageView::User(
                MessageContentView::Text("Say 'Hello from gRPC!' in one sentence."@),
            ),
        )
    }).wire(default_model)
}

/// Builds the request of the connection test.
pub fn connection_test_request(default_model: &str) -> (wire: proto::GetCompletionsRequest)
    ensures
        wire@ == connection_test_request_view(default_model@),
{
    let request = ChatRequest::new().user_message(CONNECTION_TEST_PROMPT).with_max_tokens(
        CONNECTION_TEST_MAX_TOKENS,
    );
    request_to_proto(default_model, &request)
}

/// What the answer to the connection test says: the text of the first
/// output, or an error when there is no first output with a message.
pub open spec fn connection_test_reply_view(wire: proto::GetChatCompletionResponseView) -> Result<
    Seq<char>,
    GrokErrorView,
> {
    if wire.outputs.len() > 0 && wire.outputs[0].message is Some {
        Ok(wire.outputs[0].message->0.content)
    } else {
        Err(GrokErrorView::InvalidRequest("No content in response"@))
    }
}

/// Reads the answer to the connection test.
pub fn connection_test_reply(completion: &proto::GetChatCompletionResponse) -> (text: Result<
    String,
    GrokError,
>)
    ensures
        match text {
            Ok(text) => connection_test_reply_view(completion@) == Ok::<Seq<char>, GrokErrorView>(
                text@,
            ),
            Err(error) => connection_test_reply_view(completion@) == Err::<
                Seq<char>,
                GrokErrorView,
            >(error@),
        },
{
    if completion.outputs.len() > 0 {
        match &completion.outputs[0].message {
            Some(message) => {
                return Ok(message.content.clone());
            },
            None => {},
        }
    }
    Err(GrokError::InvalidRequest("No content in response".to_string()))
}

} // verus!
