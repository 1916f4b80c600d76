//! Errors of the client.
//!
//! Every failure, local or remote, reaches the caller as a [`GrokError`]:
//! nothing is swallowed and nothing is retried by the library. Whether a
//! failure is worth retrying is a property that callers can ask for.

use vstd::prelude::*;
use vstd::string::StringExecFns;
use crate::rpc::{
    code_of, display_metadata_error, display_status, display_transport_error, status_code,
    status_text, transport_error_text,
};
use crate::text::{concat, decimal, decimal_text};

verus! {

/// Why a credential could not be read from the environment.
#[derive(Clone, Debug)]
pub enum EnvVarError {
    /// The variable is not set.
    NotPresent,
    /// The variable is set to something that is not Unicode; the field holds
    /// the value as it is displayed for debugging.
    NotUnicode(String),
}

/// What an [`EnvVarError`] holds, as mathematical values.
pub enum EnvVarErrorView {
    NotPresent,
    NotUnicode(Seq<char>),
}

impl View for EnvVarError {
    type V = EnvVarErrorView;

    open spec fn view(&self) -> EnvVarErrorView {
        match self {
            EnvVarError::NotPresent => EnvVarErrorView::NotPresent,
            EnvVarError::NotUnicode(value) => EnvVarErrorView::NotUnicode(value@),
        }
    }
}

impl EnvVarErrorView {
    /// The text the error is displayed as.
    pub open spec fn text(self) -> Seq<char> {
        match self {
            EnvVarErrorView::NotPresent => "environment variable not found"@,
            EnvVarErrorView::NotUnicode(value) => "environment variable was not valid unicode: "@
                + value,
        }
    }
}

impl EnvVarError {
    /// The text the error is displayed as.
    pub fn to_string(&self) -> (text: String)
        ensures
            text@ == self@.text(),
    {
        match self {
            EnvVarError::NotPresent => "environment variable not found".to_string(),
            EnvVarError::NotUnicode(value) => concat(
                "environment variable was not valid unicode: ",
                value.as_str(),
            ),
        }
    }
}

/// A failure of the client.
#[derive(Debug)]
pub enum GrokError {
    /// The transport failed: the network, the connection.
    Transport(tonic::transport::Error),
    /// The service answered with an error status.
    Status(tonic::Status),
    /// The rate limit was exceeded.
    RateLimit {
        /// Seconds to wait before the next attempt.
        retry_after_secs: u64,
    },
    /// The credential is missing or was refused.
    Auth(String),
    /// A request is malformed, or a response breaks a rule of the protocol.
    InvalidRequest(String),
    /// The configuration is unusable.
    Config(String),
    /// The credential could not be read from the environment.
    EnvVar(EnvVarError),
    /// A header value is not valid.
    InvalidHeaderValue(tonic::metadata::errors::InvalidMetadataValue),
}

/// What a [`GrokError`] holds, as mathematical values.
pub enum GrokErrorView {
    Transport(tonic::transport::Error),
    Status(tonic::Status),
    RateLimit { retry_after_secs: u64 },
    Auth(Seq<char>),
    InvalidRequest(Seq<char>),
    Config(Seq<char>),
    EnvVar(EnvVarErrorView),
    InvalidHeaderValue(tonic::metadata::errors::InvalidMetadataValue),
}

impl View for GrokError {
    type V = GrokErrorView;

    open spec fn view(&self) -> GrokErrorView {
        match self {
            GrokError::Transport(error) => GrokErrorView::Transport(*error),
            GrokError::Status(status) => GrokErrorView::Status(*status),
            GrokError::RateLimit { retry_after_secs } => GrokErrorView::RateLimit {
                retry_after_secs: *retry_after_secs,
            },
            GrokError::Auth(message) => GrokErrorView::Auth(message@),
            GrokError::InvalidRequest(message) => GrokErrorView::InvalidRequest(message@),
            GrokError::Config(message) => GrokErrorView::Config(message@),
            GrokError::EnvVar(error) => GrokErrorView::EnvVar(error@),
            GrokError::InvalidHeaderValue(error) => GrokErrorView::InvalidHeaderValue(*error),
        }
    }
}

/// Whether a status code reports a condition that may pass: the service is
/// unavailable, a deadline was exceeded, or a resource is exhausted.
pub open spec fn code_is_transient(code: tonic::Code) -> bool {
    code is Unavailable || code is DeadlineExceeded || code is ResourceExhausted
}

impl GrokErrorView {
    /// Whether the failure may pass: transport failures, rate limits and
    /// transient status codes may; everything else will not.
    pub open spec fn is_retryable(self) -> bool {
        match self {
            GrokErrorView::Transport(_) => true,
            GrokErrorView::RateLimit { .. } => true,
            GrokErrorView::Status(status) => code_is_transient(status_code(status)),
            _ => false,
        }
    }

    /// The wait that a rate limit suggests.
    pub open spec fn retry_after(self) -> Option<u64> {
        match self {
            GrokErrorView::RateLimit { retry_after_secs } => Some(retry_after_secs),
            _ => None,
        }
    }

    /// The message of the failure: what kind it is, then its particulars.
    pub open spec fn message(self) -> Seq<char> {
        match self {
            GrokErrorView::Transport(error) => "gRPC transport error: "@ + transport_error_text(
                error,
            ),
            GrokErrorView::Status(status) => "gRPC status error: "@ + status_text(status),
            GrokErrorView::RateLimit { retry_after_secs } => "Rate limit exceeded, retry after "@
                + decimal_text(retry_after_secs as nat) + " seconds"@,
            GrokErrorView::Auth(message) => "Authentication failed: "@ + message,
            GrokErrorView::InvalidRequest(message) => "Invalid request: "@ + message,
            GrokErrorView::Config(message) => "Configuration error: "@ + message,
            GrokErrorView::EnvVar(error) => "Environment variable not set: "@ + error.text(),
            GrokErrorView::InvalidHeaderValue(_) => "Invalid header value: "@
                + "failed to parse metadata value"@,
        }
    }
}

impl GrokError {
    /// Whether the same call may succeed when it is made again.
    pub fn is_retryable(&self) -> (retryable: bool)
        ensures
            retryable == self@.is_retryable(),
    {
        match self {
            GrokError::Transport(_) => true,
            GrokError::RateLimit { .. } => true,
            GrokError::Status(status) => match code_of(status) {
                tonic::Code::Unavailable => true,
                tonic::Code::DeadlineExceeded => true,
                tonic::Code::ResourceExhausted => true,
                _ => false,
            },
            _ => false,
        }
    }

    /// The seconds to wait before the next attempt, for a rate limit.
    pub fn retry_after(&self) -> (wait: Option<u64>)
        ensures
            wait == self@.retry_after(),
    {
        match self {
            GrokError::RateLimit { retry_after_secs } => Some(*retry_after_secs),
            _ => None,
        }
    }

    /// The message of the failure, for people to read.
    pub fn to_string(&self) -> (text: String)
        ensures
            text@ == self@.message(),
    {
        match self {
            GrokError::Transport(error) => {
                let detail = display_transport_error(error);
                concat("gRPC transport error: ", detail.as_str())
            },
            GrokError::Status(status) => {
                let detail = display_status(status);
                concat("gRPC status error: ", detail.as_str())
            },
            GrokError::RateLimit { retry_after_secs } => {
                let seconds = decimal(*retry_after_secs);
                let mut text = concat("Rate limit exceeded, retry after ", seconds.as_str());
                text.append(" seconds");
                text
            },
            GrokError::Auth(message) => concat("Authentication failed: ", message.as_str()),
            GrokError::InvalidRequest(message) => concat("Invalid request: ", message.as_str()),
            GrokError::Config(message) => concat("Configuration error: ", message.as_str()),
            GrokError::EnvVar(error) => {
                let detail = error.to_string();
                concat("Environment variable not set: ", detail.as_str())
            },
            GrokError::InvalidHeaderValue(error) => {
                let detail = display_metadata_error(error);
                concat("Invalid header value: ", detail.as_str())
            },
        }
    }
}

} // verus!
