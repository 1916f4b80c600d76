//! Chat responses, whole and streamed.

use vstd::prelude::*;
use crate::text::concat;
use crate::number::Float32;
use crate::tools::{ToolCall, ToolCallView};

verus! {

/// A finished chat completion.
#[derive(Clone, Debug)]
pub struct ChatResponse {
    /// Identifier of the request.
    pub request_id: String,
    /// Generated text.
    pub content: String,
    /// Why generation stopped.
    pub finish_reason: FinishReason,
    /// Model that answered.
    pub model: String,
    /// Token accounting.
    pub usage: TokenUsage,
    /// Sources cited by live search.
    pub citations: Vec<String>,
    /// Tool calls the model asks for.
    pub tool_calls: Vec<ToolCall>,
    /// Reasoning trace, when the model produced one.
    pub reasoning_content: Option<String>,
    /// Log probabilities, when asked for.
    pub logprobs: Option<LogProbs>,
    /// Time of creation, Unix seconds.
    pub created: Option<i64>,
    /// Backend fingerprint.
    pub system_fingerprint: Option<String>,
}

/// What a [`ChatResponse`] holds, as mathematical values.
pub struct ChatResponseView {
    pub request_id: Seq<char>,
    pub content: Seq<char>,
    pub finish_reason: FinishReasonView,
    pub model: Seq<char>,
    pub usage: TokenUsage,
    pub citations: Seq<Seq<char>>,
    pub tool_calls: Seq<ToolCallView>,
    pub reasoning_content: Option<Seq<char>>,
    pub logprobs: Option<LogProbsView>,
    pub created: Option<i64>,
    pub system_fingerprint: Option<Seq<char>>,
}

impl View for ChatResponse {
    type V = ChatResponseView;

    open spec fn view(&self) -> ChatResponseView {
        ChatResponseView {
            request_id: self.request_id@,
            content: self.content@,
            finish_reason: self.finish_reason@,
            model: self.model@,
            usage: self.usage,
            citations: self.citations.deep_view(),
            tool_calls: self.tool_calls.deep_view(),
            reasoning_content: self.reasoning_content.deep_view(),
            logprobs: self.logprobs.deep_view(),
            created: self.created,
            system_fingerprint: self.system_fingerprint.deep_view(),
        }
    }
}

impl DeepView for ChatResponse {
    type V = ChatResponseView;

    open spec fn deep_view(&self) -> ChatResponseView {
        self@
    }
}

/// Log probabilities of a generated text.
#[derive(Clone, Debug)]
pub struct LogProbs {
    /// One entry per generated token.
    pub content: Vec<LogProb>,
}

/// What a [`LogProbs`] holds, as mathematical values.
pub struct LogProbsView {
    pub content: Seq<LogProbView>,
}

impl View for LogProbs {
    type V = LogProbsView;

    open spec fn view(&self) -> LogProbsView {
        LogProbsView {
            content: self.content.deep_view(),
        }
    }
}

impl DeepView for LogProbs {
    type V = LogProbsView;

    open spec fn deep_view(&self) -> LogProbsView {
        self@
    }
}

/// Log probability of one generated token.
#[derive(Clone, Debug)]
pub struct LogProb {
    /// The token.
    pub token: String,
    /// Its log probability.
    pub logprob: Float32,
    /// Its UTF-8 bytes.
    pub bytes: Vec<u8>,
    /// Most likely alternatives at this position.
    pub top_logprobs: Vec<TopLogProb>,
}

/// What a [`LogProb`] holds, as mathematical values.
pub struct LogProbView {
    pub token: Seq<char>,
    pub logprob: Float32,
    pub bytes: Seq<u8>,
    pub top_logprobs: Seq<TopLogProbView>,
}

impl View for LogProb {
    type V = LogProbView;

    open spec fn view(&self) -> LogProbView {
        LogProbView {
            token: self.token@,
            logprob: self.logprob,
            bytes: self.bytes@,
            top_logprobs: self.top_logprobs.deep_view(),
        }
    }
}

impl DeepView for LogProb {
    type V = LogProbView;

    open spec fn deep_view(&self) -> LogProbView {
        self@
    }
}

/// An alternative token and its log probability.
#[derive(Clone, Debug)]
pub struct TopLogProb {
    /// The token.
    pub token: String,
    /// Its log probability.
    pub logprob: Float32,
    /// Its UTF-8 bytes.
    pub bytes: Vec<u8>,
}

/// What a [`TopLogProb`] holds, as mathematical values.
pub struct TopLogProbView {
    pub token: Seq<char>,
    pub logprob: Float32,
    pub bytes: Seq<u8>,
}

impl View for TopLogProb {
    type V = TopLogProbView;

    open spec fn view(&self) -> TopLogProbView {
        TopLogProbView {
            token: self.token@,
            logprob: self.logprob,
            bytes: self.bytes@,
        }
    }
}

impl DeepView for TopLogProb {
    type V = TopLogProbView;

    open spec fn deep_view(&self) -> TopLogProbView {
        self@
    }
}

/// One chunk of a streamed chat completion.
#[derive(Clone, Debug)]
pub struct ChatChunk {
    /// Text added by this chunk.
    pub delta: String,
    /// Why generation stopped; set on the last chunk only.
    pub finish_reason: Option<FinishReason>,
    /// Token accounting so far.
    pub cumulative_usage: TokenUsage,
    /// Reasoning text added by this chunk.
    pub reasoning_delta: Option<String>,
    /// Tool calls the model asks for.
    pub tool_calls: Vec<ToolCall>,
    /// Log probabilities of the new tokens.
    pub logprobs: Option<LogProbs>,
    /// Sources cited by live search.
    pub citations: Vec<String>,
}

/// What a [`ChatChunk`] holds, as mathematical values.
pub struct ChatChunkView {
    pub delta: Seq<char>,
    pub finish_reason: Option<FinishReasonView>,
    pub cumulative_usage: TokenUsage,
    pub reasoning_delta: Option<Seq<char>>,
    pub tool_calls: Seq<ToolCallView>,
    pub logprobs: Option<LogProbsView>,
    pub citations: Seq<Seq<char>>,
}

impl View for ChatChunk {
    type V = ChatChunkView;

    open spec fn view(&self) -> ChatChunkView {
        ChatChunkView {
            delta: self.delta@,
            finish_reason: self.finish_reason.deep_view(),
            cumulative_usage: self.cumulative_usage,
            reasoning_delta: self.reasoning_delta.deep_view(),
            tool_calls: self.tool_calls.deep_view(),
            logprobs: self.logprobs.deep_view(),
            citations: self.citations.deep_view(),
        }
    }
}

impl DeepView for ChatChunk {
    type V = ChatChunkView;

    open spec fn deep_view(&self) -> ChatChunkView {
        self@
    }
}

/// Token accounting of a completion.
#[derive(Clone, Copy, Debug, PartialEq, Eq, Structural)]
pub struct TokenUsage {
    /// Tokens in the prompt.
    pub prompt_tokens: u32,
    /// Tokens generated.
    pub completion_tokens: u32,
    /// Prompt and completion together.
    pub total_tokens: u32,
}

/// Why the model stopped generating.
#[derive(Clone, Debug)]
pub enum FinishReason {
    /// A natural end or a stop sequence.
    Stop,
    /// A token limit was reached.
    Length,
    /// The model asks for tool calls.
    ToolCalls,
    /// The content was filtered.
    ContentFilter,
    /// Generation failed; the text says why.
    Error(String),
    /// A reason this library does not know.
    Unknown,
}

/// What a [`FinishReason`] holds, as mathematical values.
pub enum FinishReasonView {
    Stop,
    Length,
    ToolCalls,
    ContentFilter,
    Error(Seq<char>),
    Unknown,
}

impl View for FinishReason {
    type V = FinishReasonView;

    open spec fn view(&self) -> FinishReasonView {
        match self {
            FinishReason::Stop => FinishReasonView::Stop,
            FinishReason::Length => FinishReasonView::Length,
            FinishReason::ToolCalls => FinishReasonView::ToolCalls,
            FinishReason::ContentFilter => FinishReasonView::ContentFilter,
            FinishReason::Error(inner) => FinishReasonView::Error(inner@),
            FinishReason::Unknown => FinishReasonView::Unknown,
        }
    }
}

impl DeepView for FinishReason {
    type V = FinishReasonView;

    open spec fn deep_view(&self) -> FinishReasonView {
        self@
    }
}

impl Default for TokenUsage {
    /// No tokens.
    fn default() -> (usage: TokenUsage)
        ensures
            usage == (TokenUsage { prompt_tokens: 0, completion_tokens: 0, total_tokens: 0 }),
    {
        TokenUsage { prompt_tokens: 0, completion_tokens: 0, total_tokens: 0 }
    }
}

impl FinishReasonView {
    /// The reason as a word; an error is followed by its message.
    pub open spec fn text(self) -> Seq<char> {
        match self {
            FinishReasonView::Stop => "stop"@,
            FinishReasonView::Length => "length"@,
            FinishReasonView::ToolCalls => "tool_calls"@,
            FinishReasonView::ContentFilter => "content_filter"@,
            FinishReasonView::Error(message) => "error: "@ + message,
            FinishReasonView::Unknown => "unknown"@,
        }
    }
}

impl FinishReason {
    /// The reason as a word; an error is followed by its message.
    pub fn to_string(&self) -> (text: String)
        ensures
            text@ == self@.text(),
    {
        match self {
            FinishReason::Stop => "stop".to_string(),
            FinishReason::Length => "length".to_string(),
            FinishReason::ToolCalls => "tool_calls".to_string(),
            FinishReason::ContentFilter => "content_filter".to_string(),
            FinishReason::Error(message) => concat("error: ", message.as_str()),
            FinishReason::Unknown => "unknown".to_string(),
        }
    }
}

} // verus!
