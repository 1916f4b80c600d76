//! Messages of the chat service.

use vstd::prelude::*;
use super::{content, ToolCall, ToolCallView, Tool, ToolView, ToolChoice, ToolChoiceView};
use crate::number::Float32;

verus! {

/// Request for a chat completion, blocking, streamed or deferred.
#[derive(Clone, Debug)]
pub struct GetCompletionsRequest {
    /// Conversation so far, oldest first.
    pub messages: Vec<Message>,
    /// Model name or alias.
    pub model: String,
    /// Upper bound on generated tokens.
    pub max_tokens: Option<i32>,
    /// Sampling temperature.
    pub temperature: Option<Float32>,
    /// Nucleus sampling mass.
    pub top_p: Option<Float32>,
    /// Sequences that end generation.
    pub stop: Vec<String>,
    /// Seed for repeatable sampling.
    pub seed: Option<i32>,
    /// Tools the model may call.
    pub tools: Vec<Tool>,
    /// Policy for calling tools.
    pub tool_choice: Option<ToolChoice>,
    /// Code of the reasoning effort.
    pub reasoning_effort: Option<i32>,
    /// Live search settings.
    pub search_parameters: Option<SearchParameters>,
    /// Constraint on the form of the answer.
    pub response_format: Option<ResponseFormat>,
    /// End-user identifier; empty when unset.
    pub user: String,
    /// Whether log probabilities are returned.
    pub logprobs: bool,
    /// Number of alternatives per token.
    pub top_logprobs: Option<i32>,
    /// Penalty on frequent tokens.
    pub frequency_penalty: Option<Float32>,
    /// Penalty on tokens already present.
    pub presence_penalty: Option<Float32>,
    /// Whether tool calls may run in parallel.
    pub parallel_tool_calls: Option<bool>,
    /// Stored response this request continues.
    pub previous_response_id: Option<String>,
    /// Whether the service stores the exchange.
    pub store_messages: bool,
    /// Whether reasoning is returned encrypted.
    pub use_encrypted_content: bool,
    /// Upper bound on agentic tool-calling turns.
    pub max_turns: Option<i32>,
    /// Codes of the optional outputs asked for.
    pub include_options: Vec<i32>,
}

/// What a [`GetCompletionsRequest`] holds, as mathematical values.
pub struct GetCompletionsRequestView {
    pub messages: Seq<MessageView>,
    pub model: Seq<char>,
    pub max_tokens: Option<i32>,
    pub temperature: Option<Float32>,
    pub top_p: Option<Float32>,
    pub stop: Seq<Seq<char>>,
    pub seed: Option<i32>,
    pub tools: Seq<ToolView>,
    pub tool_choice: Option<ToolChoiceView>,
    pub reasoning_effort: Option<i32>,
    pub search_parameters: Option<SearchParametersView>,
    pub response_format: Option<ResponseFormatView>,
    pub user: Seq<char>,
    pub logprobs: bool,
    pub top_logprobs: Option<i32>,
    pub frequency_penalty: Option<Float32>,
    pub presence_penalty: Option<Float32>,
    pub parallel_tool_calls: Option<bool>,
    pub previous_response_id: Option<Seq<char>>,
    pub store_messages: bool,
    pub use_encrypted_content: bool,
    pub max_turns: Option<i32>,
    pub include_options: Seq<i32>,
}

impl View for GetCompletionsRequest {
    type V = GetCompletionsRequestView;

    open spec fn view(&self) -> GetCompletionsRequestView {
        GetCompletionsRequestView {
            messages: self.messages.deep_view(),
            model: self.model@,
            max_tokens: self.max_tokens,
            temperature: self.temperature,
            top_p: self.top_p,
            stop: self.stop.deep_view(),
            seed: self.seed,
            tools: self.tools.deep_view(),
            tool_choice: self.tool_choice.deep_view(),
            reasoning_effort: self.reasoning_effort,
            search_parameters: self.search_parameters.deep_view(),
            response_format: self.response_format.deep_view(),
            user: self.user@,
            logprobs: self.logprobs,
            top_logprobs: self.top_logprobs,
            frequency_penalty: self.frequency_penalty,
            presence_penalty: self.presence_penalty,
            parallel_tool_calls: self.parallel_tool_calls,
            previous_response_id: self.previous_response_id.deep_view(),
            store_messages: self.store_messages,
            use_encrypted_content: self.use_encrypted_content,
            max_turns: self.max_turns,
            include_options: self.include_options@,
        }
    }
}

impl DeepView for GetCompletionsRequest {
    type V = GetCompletionsRequestView;

    open spec fn deep_view(&self) -> GetCompletionsRequestView {
        self@
    }
}

/// One message of a conversation.
#[derive(Clone, Debug)]
pub struct Message {
    /// Code of the author's role.
    pub role: i32,
    /// Parts of the message, in order.
    pub content: Vec<Content>,
}

/// What a [`Message`] holds, as mathematical values.
pub struct MessageView {
    pub role: i32,
    pub content: Seq<ContentView>,
}

impl View for Message {
    type V = MessageView;

    open spec fn view(&self) -> MessageView {
        MessageView {
            role: self.role,
            content: self.content.deep_view(),
        }
    }
}

impl DeepView for Message {
    type V = MessageView;

    open spec fn deep_view(&self) -> MessageView {
        self@
    }
}

/// One part of a message.
#[derive(Clone, Debug)]
pub struct Content {
    /// The part; unset on a malformed message.
    pub content: Option<content::Content>,
}

/// What a [`Content`] holds, as mathematical values.
pub struct ContentView {
    pub content: Option<content::ContentView>,
}

impl View for Content {
    type V = ContentView;

    open spec fn view(&self) -> ContentView {
        ContentView {
            content: self.content.deep_view(),
        }
    }
}

impl DeepView for Content {
    type V = ContentView;

    open spec fn deep_view(&self) -> ContentView {
        self@
    }
}

/// Reference to an image.
#[derive(Clone, Debug)]
pub struct ImageUrlContent {
    /// URL of the image.
    pub image_url: String,
    /// Code of the detail level.
    pub detail: i32,
}

/// What a [`ImageUrlContent`] holds, as mathematical values.
pub struct ImageUrlContentView {
    pub image_url: Seq<char>,
    pub detail: i32,
}

impl View for ImageUrlContent {
    type V = ImageUrlContentView;

    open spec fn view(&self) -> ImageUrlContentView {
        ImageUrlContentView {
            image_url: self.image_url@,
            detail: self.detail,
        }
    }
}

impl DeepView for ImageUrlContent {
    type V = ImageUrlContentView;

    open spec fn deep_view(&self) -> ImageUrlContentView {
        self@
    }
}

/// Reference to an uploaded file.
#[derive(Clone, Debug)]
pub struct FileContent {
    /// Identifier of the file.
    pub file_id: String,
}

/// What a [`FileContent`] holds, as mathematical values.
pub struct FileContentView {
    pub file_id: Seq<char>,
}

impl View for FileContent {
    type V = FileContentView;

    open spec fn view(&self) -> FileContentView {
        FileContentView {
            file_id: self.file_id@,
        }
    }
}

impl DeepView for FileContent {
    type V = FileContentView;

    open spec fn deep_view(&self) -> FileContentView {
        self@
    }
}

/// Live search settings.
#[derive(Clone, Debug)]
pub struct SearchParameters {
    /// Code of the search mode.
    pub mode: i32,
    /// Upper bound on search results.
    pub max_search_results: Option<i32>,
}

/// What a [`SearchParameters`] holds, as mathematical values.
pub struct SearchParametersView {
    pub mode: i32,
    pub max_search_results: Option<i32>,
}

impl View for SearchParameters {
    type V = SearchParametersView;

    open spec fn view(&self) -> SearchParametersView {
        SearchParametersView {
            mode: self.mode,
            max_search_results: self.max_search_results,
        }
    }
}

impl DeepView for SearchParameters {
    type V = SearchParametersView;

    open spec fn deep_view(&self) -> SearchParametersView {
        self@
    }
}

/// Constraint on the form of the answer.
#[derive(Clone, Debug)]
pub struct ResponseFormat {
    /// Code of the format.
    pub format_type: i32,
    /// JSON schema text, for the schema format.
    pub schema: Option<String>,
}

/// What a [`ResponseFormat`] holds, as mathematical values.
pub struct ResponseFormatView {
    pub format_type: i32,
    pub schema: Option<Seq<char>>,
}

impl View for ResponseFormat {
    type V = ResponseFormatView;

    open spec fn view(&self) -> ResponseFormatView {
        ResponseFormatView {
            format_type: self.format_type,
            schema: self.schema.deep_view(),
        }
    }
}

impl DeepView for ResponseFormat {
    type V = ResponseFormatView;

    open spec fn deep_view(&self) -> ResponseFormatView {
        self@
    }
}

/// A finished chat completion.
#[derive(Clone, Debug)]
pub struct GetChatCompletionResponse {
    /// Identifier of the request.
    pub id: String,
    /// Generated alternatives.
    pub outputs: Vec<CompletionOutput>,
    /// Time of creation.
    pub created: Option<prost_types::Timestamp>,
    /// Model that answered.
    pub model: String,
    /// Backend fingerprint; empty when unset.
    pub system_fingerprint: String,
    /// Token accounting.
    pub usage: Option<SamplingUsage>,
    /// Sources cited by live search.
    pub citations: Vec<String>,
}

/// What a [`GetChatCompletionResponse`] holds, as mathematical values.
pub struct GetChatCompletionResponseView {
    pub id: Seq<char>,
    pub outputs: Seq<CompletionOutputView>,
    pub created: Option<prost_types::Timestamp>,
    pub model: Seq<char>,
    pub system_fingerprint: Seq<char>,
    pub usage: Option<SamplingUsageView>,
    pub citations: Seq<Seq<char>>,
}

impl View for GetChatCompletionResponse {
    type V = GetChatCompletionResponseView;

    open spec fn view(&self) -> GetChatCompletionResponseView {
        GetChatCompletionResponseView {
            id: self.id@,
            outputs: self.outputs.deep_view(),
            created: self.created,
            model: self.model@,
            system_fingerprint: self.system_fingerprint@,
            usage: self.usage.deep_view(),
            citations: self.citations.deep_view(),
        }
    }
}

impl DeepView for GetChatCompletionResponse {
    type V = GetChatCompletionResponseView;

    open spec fn deep_view(&self) -> GetChatCompletionResponseView {
        self@
    }
}

/// One generated alternative.
#[derive(Clone, Debug)]
pub struct CompletionOutput {
    /// Code of the reason generation stopped.
    pub finish_reason: i32,
    /// The generated message.
    pub message: Option<CompletionMessage>,
    /// Log probabilities of the generated tokens.
    pub logprobs: Option<LogProbs>,
}

/// What a [`CompletionOutput`] holds, as mathematical values.
pub struct CompletionOutputView {
    pub finish_reason: i32,
    pub message: Option<CompletionMessageView>,
    pub logprobs: Option<LogProbsView>,
}

impl View for CompletionOutput {
    type V = CompletionOutputView;

    open spec fn view(&self) -> CompletionOutputView {
        CompletionOutputView {
            finish_reason: self.finish_reason,
            message: self.message.deep_view(),
            logprobs: self.logprobs.deep_view(),
        }
    }
}

impl DeepView for CompletionOutput {
    type V = CompletionOutputView;

    open spec fn deep_view(&self) -> CompletionOutputView {
        self@
    }
}

/// A generated message.
#[derive(Clone, Debug)]
pub struct CompletionMessage {
    /// Generated text.
    pub content: String,
    /// Reasoning trace; empty when there is none.
    pub reasoning_content: String,
    /// Tool calls the model asks for.
    pub tool_calls: Vec<ToolCall>,
}

/// What a [`CompletionMessage`] holds, as mathematical values.
pub struct CompletionMessageView {
    pub content: Seq<char>,
    pub reasoning_content: Seq<char>,
    pub tool_calls: Seq<ToolCallView>,
}

impl View for CompletionMessage {
    type V = CompletionMessageView;

    open spec fn view(&self) -> CompletionMessageView {
        CompletionMessageView {
            content: self.content@,
            reasoning_content: self.reasoning_content@,
            tool_calls: self.tool_calls.deep_view(),
        }
    }
}

impl DeepView for CompletionMessage {
    type V = CompletionMessageView;

    open spec fn deep_view(&self) -> CompletionMessageView {
        self@
    }
}

/// Token accounting of a sampling request.
#[derive(Clone, Debug)]
pub struct SamplingUsage {
    /// Tokens generated.
    pub completion_tokens: i32,
    /// Tokens spent on reasoning.
    pub reasoning_tokens: i32,
    /// Tokens in the prompt.
    pub prompt_tokens: i32,
    /// Prompt and completion together.
    pub total_tokens: i32,
    /// Text tokens in the prompt.
    pub prompt_text_tokens: i32,
    /// Prompt text tokens served from cache.
    pub cached_prompt_text_tokens: i32,
    /// Image tokens in the prompt.
    pub prompt_image_tokens: i32,
    /// Live search sources consulted.
    pub num_sources_used: i32,
    /// Codes of the server-side tools that ran.
    pub server_side_tools_used: Vec<i32>,
}

/// What a [`SamplingUsage`] holds, as mathematical values.
pub struct SamplingUsageView {
    pub completion_tokens: i32,
    pub reasoning_tokens: i32,
    pub prompt_tokens: i32,
    pub total_tokens: i32,
    pub prompt_text_tokens: i32,
    pub cached_prompt_text_tokens: i32,
    pub prompt_image_tokens: i32,
    pub num_sources_used: i32,
    pub server_side_tools_used: Seq<i32>,
}

impl View for SamplingUsage {
    type V = SamplingUsageView;

    open spec fn view(&self) -> SamplingUsageView {
        SamplingUsageView {
            completion_tokens: self.completion_tokens,
            reasoning_tokens: self.reasoning_tokens,
            prompt_tokens: self.prompt_tokens,
            total_tokens: self.total_tokens,
            prompt_text_tokens: self.prompt_text_tokens,
            cached_prompt_text_tokens: self.cached_prompt_text_tokens,
            prompt_image_tokens: self.prompt_image_tokens,
            num_sources_used: self.num_sources_used,
            server_side_tools_used: self.server_side_tools_used@,
        }
    }
}

impl DeepView for SamplingUsage {
    type V = SamplingUsageView;

    open spec fn deep_view(&self) -> SamplingUsageView {
        self@
    }
}

/// Log probabilities of a generated text.
#[derive(Clone, Debug)]
pub struct LogProbs {
    /// One entry per generated token.
    pub content: Vec<LogProb>,
}

/// What a [`LogProbs`] holds, as mathematical values.
pub struct LogProbsView {
    pub content: Seq<LogProbView>,
}

impl View for LogProbs {
    type V = LogProbsView;

    open spec fn view(&self) -> LogProbsView {
        LogProbsView {
            content: self.content.deep_view(),
        }
    }
}

impl DeepView for LogProbs {
    type V = LogProbsView;

    open spec fn deep_view(&self) -> LogProbsView {
        self@
    }
}

/// Log probability of one generated token.
#[derive(Clone, Debug)]
pub struct LogProb {
    /// The token.
    pub token: String,
    /// Its log probability.
    pub logprob: Float32,
    /// Its UTF-8 bytes.
    pub bytes: Vec<u8>,
    /// Most likely alternatives at this position.
    pub top_logprobs: Vec<TopLogProb>,
}

/// What a [`LogProb`] holds, as mathematical values.
pub struct LogProbView {
    pub token: Seq<char>,
    pub logprob: Float32,
    pub bytes: Seq<u8>,
    pub top_logprobs: Seq<TopLogProbView>,
}

impl View for LogProb {
    type V = LogProbView;

    open spec fn view(&self) -> LogProbView {
        LogProbView {
            token: self.token@,
            logprob: self.logprob,
            bytes: self.bytes@,
            top_logprobs: self.top_logprobs.deep_view(),
        }
    }
}

impl DeepView for LogProb {
    type V = LogProbView;

    open spec fn deep_view(&self) -> LogProbView {
        self@
    }
}

/// An alternative token and its log probability.
#[derive(Clone, Debug)]
pub struct TopLogProb {
    /// The token.
    pub token: String,
    /// Its log probability.
    pub logprob: Float32,
    /// Its UTF-8 bytes.
    pub bytes: Vec<u8>,
}

/// What a [`TopLogProb`] holds, as mathematical values.
pub struct TopLogProbView {
    pub token: Seq<char>,
    pub logprob: Float32,
    pub bytes: Seq<u8>,
}

impl View for TopLogProb {
    type V = TopLogProbView;

    open spec fn view(&self) -> TopLogProbView {
        TopLogProbView {
            token: self.token@,
            logprob: self.logprob,
            bytes: self.bytes@,
        }
    }
}

impl DeepView for TopLogProb {
    type V = TopLogProbView;

    open spec fn deep_view(&self) -> TopLogProbView {
        self@
    }
}

/// One chunk of a streamed chat completion.
#[derive(Clone, Debug)]
pub struct GetChatCompletionChunk {
    /// Identifier of the request.
    pub id: String,
    /// Increments of the alternatives.
    pub outputs: Vec<CompletionOutputChunk>,
    /// Time of creation.
    pub created: Option<prost_types::Timestamp>,
    /// Model that answers.
    pub model: String,
    /// Backend fingerprint; empty when unset.
    pub system_fingerprint: String,
    /// Token accounting so far.
    pub usage: Option<SamplingUsage>,
    /// Sources cited by live search.
    pub citations: Vec<String>,
}

/// What a [`GetChatCompletionChunk`] holds, as mathematical values.
pub struct GetChatCompletionChunkView {
    pub id: Seq<char>,
    pub outputs: Seq<CompletionOutputChunkView>,
    pub created: Option<prost_types::Timestamp>,
    pub model: Seq<char>,
    pub system_fingerprint: Seq<char>,
    pub usage: Option<SamplingUsageView>,
    pub citations: Seq<Seq<char>>,
}

impl View for GetChatCompletionChunk {
    type V = GetChatCompletionChunkView;

    open spec fn view(&self) -> GetChatCompletionChunkView {
        GetChatCompletionChunkView {
            id: self.id@,
            outputs: self.outputs.deep_view(),
            created: self.created,
            model: self.model@,
            system_fingerprint: self.system_fingerprint@,
            usage: self.usage.deep_view(),
            citations: self.citations.deep_view(),
        }
    }
}

impl DeepView for GetChatCompletionChunk {
    type V = GetChatCompletionChunkView;

    open spec fn deep_view(&self) -> GetChatCompletionChunkView {
        self@
    }
}

/// Increment of one alternative.
#[derive(Clone, Debug)]
pub struct CompletionOutputChunk {
    /// Newly generated content.
    pub delta: Option<Delta>,
    /// Log probabilities of the new tokens.
    pub logprobs: Option<LogProbs>,
    /// Code of the finish reason; 0 while streaming goes on.
    pub finish_reason: i32,
}

/// What a [`CompletionOutputChunk`] holds, as mathematical values.
pub struct CompletionOutputChunkView {
    pub delta: Option<DeltaView>,
    pub logprobs: Option<LogProbsView>,
    pub finish_reason: i32,
}

impl View for CompletionOutputChunk {
    type V = CompletionOutputChunkView;

    open spec fn view(&self) -> CompletionOutputChunkView {
        CompletionOutputChunkView {
            delta: self.delta.deep_view(),
            logprobs: self.logprobs.deep_view(),
            finish_reason: self.finish_reason,
        }
    }
}

impl DeepView for CompletionOutputChunk {
    type V = CompletionOutputChunkView;

    open spec fn deep_view(&self) -> CompletionOutputChunkView {
        self@
    }
}

/// Content added by one chunk.
#[derive(Clone, Debug)]
pub struct Delta {
    /// New text.
    pub content: String,
    /// New reasoning text; empty when there is none.
    pub reasoning_content: String,
    /// Tool calls the model asks for.
    pub tool_calls: Vec<ToolCall>,
}

/// What a [`Delta`] holds, as mathematical values.
pub struct DeltaView {
    pub content: Seq<char>,
    pub reasoning_content: Seq<char>,
    pub tool_calls: Seq<ToolCallView>,
}

impl View for Delta {
    type V = DeltaView;

    open spec fn view(&self) -> DeltaView {
        DeltaView {
            content: self.content@,
            reasoning_content: self.reasoning_content@,
            tool_calls: self.tool_calls.deep_view(),
        }
    }
}

impl DeepView for Delta {
    type V = DeltaView;

    open spec fn deep_view(&self) -> DeltaView {
        self@
    }
}

/// Asks for the state of a deferred completion.
#[derive(Clone, Debug)]
pub struct GetDeferredRequest {
    /// Identifier handed out when the completion was started.
    pub request_id: String,
}

/// What a [`GetDeferredRequest`] holds, as mathematical values.
pub struct GetDeferredRequestView {
    pub request_id: Seq<char>,
}

impl View for GetDeferredRequest {
    type V = GetDeferredRequestView;

    open spec fn view(&self) -> GetDeferredRequestView {
        GetDeferredRequestView {
            request_id: self.request_id@,
        }
    }
}

impl DeepView for GetDeferredRequest {
    type V = GetDeferredRequestView;

    open spec fn deep_view(&self) -> GetDeferredRequestView {
        self@
    }
}

/// State of a deferred completion.
#[derive(Clone, Debug)]
pub struct GetDeferredCompletionResponse {
    /// The completion, once done.
    pub response: Option<GetChatCompletionResponse>,
    /// Code of the state.
    pub status: i32,
}

/// What a [`GetDeferredCompletionResponse`] holds, as mathematical values.
pub struct GetDeferredCompletionResponseView {
    pub response: Option<GetChatCompletionResponseView>,
    pub status: i32,
}

impl View for GetDeferredCompletionResponse {
    type V = GetDeferredCompletionResponseView;

    open spec fn view(&self) -> GetDeferredCompletionResponseView {
        GetDeferredCompletionResponseView {
            response: self.response.deep_view(),
            status: self.status,
        }
    }
}

impl DeepView for GetDeferredCompletionResponse {
    type V = GetDeferredCompletionResponseView;

    open spec fn deep_view(&self) -> GetDeferredCompletionResponseView {
        self@
    }
}

/// Receipt for a started deferred completion.
#[derive(Clone, Debug)]
pub struct StartDeferredResponse {
    /// Identifier to poll with.
    pub request_id: String,
}

/// What a [`StartDeferredResponse`] holds, as mathematical values.
pub struct StartDeferredResponseView {
    pub request_id: Seq<char>,
}

impl View for StartDeferredResponse {
    type V = StartDeferredResponseView;

    open spec fn view(&self) -> StartDeferredResponseView {
        StartDeferredResponseView {
            request_id: self.request_id@,
        }
    }
}

impl DeepView for StartDeferredResponse {
    type V = StartDeferredResponseView;

    open spec fn deep_view(&self) -> StartDeferredResponseView {
        self@
    }
}

/// Asks for a stored completion.
#[derive(Clone, Debug)]
pub struct GetStoredCompletionRequest {
    /// Identifier of the stored response.
    pub response_id: String,
}

/// What a [`GetStoredCompletionRequest`] holds, as mathematical values.
pub struct GetStoredCompletionRequestView {
    pub response_id: Seq<char>,
}

impl View for GetStoredCompletionRequest {
    type V = GetStoredCompletionRequestView;

    open spec fn view(&self) -> GetStoredCompletionRequestView {
        GetStoredCompletionRequestView {
            response_id: self.response_id@,
        }
    }
}

impl DeepView for GetStoredCompletionRequest {
    type V = GetStoredCompletionRequestView;

    open spec fn deep_view(&self) -> GetStoredCompletionRequestView {
        self@
    }
}

/// Asks to delete a stored completion.
#[derive(Clone, Debug)]
pub struct DeleteStoredCompletionRequest {
    /// Identifier of the stored response.
    pub response_id: String,
}

/// What a [`DeleteStoredCompletionRequest`] holds, as mathematical values.
pub struct DeleteStoredCompletionRequestView {
    pub response_id: Seq<char>,
}

impl View for DeleteStoredCompletionRequest {
    type V = DeleteStoredCompletionRequestView;

    open spec fn view(&self) -> DeleteStoredCompletionRequestView {
        DeleteStoredCompletionRequestView {
            response_id: self.response_id@,
        }
    }
}

impl DeepView for DeleteStoredCompletionRequest {
    type V = DeleteStoredCompletionRequestView;

    open spec fn deep_view(&self) -> DeleteStoredCompletionRequestView {
        self@
    }
}

} // verus!
