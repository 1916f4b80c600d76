//! The wire schema: the messages exchanged with the service, as plain values.
//!
//! Every message is a struct with public fields, an optional sub-message is an
//! `Option`, a repeated field a `Vec`, an enumeration field the `i32` that stands
//! for it, and a group of alternatives an enum in a module named after the
//! field. Each message has a view that holds the same content as mathematical
//! values; the contracts of the conversions are stated over those views.

pub mod content;
pub mod embed_input;
pub mod generated_image;
pub mod tool;
pub mod tool_call;
pub mod tool_choice;

mod chat;
mod tools;
mod auth;
mod models;
mod embed;
mod tokenize;
mod sample;
mod image;
mod documents;
mod codes;
mod timestamp;

pub use chat::{
    CompletionMessage, CompletionMessageView, CompletionOutput, CompletionOutputChunk,
    CompletionOutputChunkView, CompletionOutputView, Content, ContentView,
    DeleteStoredCompletionRequest, DeleteStoredCompletionRequestView, Delta, DeltaView,
    FileContent, FileContentView, GetChatCompletionChunk, GetChatCompletionChunkView,
    GetChatCompletionResponse, GetChatCompletionResponseView, GetCompletionsRequest,
    GetCompletionsRequestView, GetDeferredCompletionResponse, GetDeferredCompletionResponseView,
    GetDeferredRequest, GetDeferredRequestView, GetStoredCompletionRequest,
    GetStoredCompletionRequestView, ImageUrlContent, ImageUrlContentView, LogProb, LogProbView,
    LogProbs, LogProbsView, Message, MessageView, ResponseFormat, ResponseFormatView,
    SamplingUsage, SamplingUsageView, SearchParameters, SearchParametersView,
    StartDeferredResponse, StartDeferredResponseView, TopLogProb, TopLogProbView,
};
pub use tools::{
    CodeExecution, CodeExecutionView, CollectionsSearch, CollectionsSearchView, DocumentSearch,
    DocumentSearchView, Function, FunctionCall, FunctionCallView, FunctionView, Mcp, McpView, Tool,
    ToolCall, ToolCallView, ToolChoice, ToolChoiceView, ToolView, WebSearch, WebSearchView,
    XSearch, XSearchView,
};
pub use auth::{
    ApiKey, ApiKeyView,
};
pub use models::{
    EmbeddingModel, EmbeddingModelView, GetModelRequest, GetModelRequestView, ImageGenerationModel,
    ImageGenerationModelView, LanguageModel, LanguageModelView, ListEmbeddingModelsResponse,
    ListEmbeddingModelsResponseView, ListImageGenerationModelsResponse,
    ListImageGenerationModelsResponseView, ListLanguageModelsResponse,
    ListLanguageModelsResponseView,
};
pub use embed::{
    EmbedInput, EmbedInputView, EmbedRequest, EmbedRequestView, EmbedResponse, EmbedResponseView,
    Embedding, EmbeddingUsage, EmbeddingUsageView, EmbeddingView, FeatureVector, FeatureVectorView,
};
pub use tokenize::{
    Token, TokenView, TokenizeTextRequest, TokenizeTextRequestView, TokenizeTextResponse,
    TokenizeTextResponseView,
};
pub use sample::{
    SampleChoice, SampleChoiceView, SampleTextRequest, SampleTextRequestView, SampleTextResponse,
    SampleTextResponseView,
};
pub use image::{
    GenerateImageRequest, GenerateImageRequestView, GeneratedImage, GeneratedImageView,
    ImageResponse, ImageResponseView,
};
pub use documents::{
    DocumentsSource, DocumentsSourceView, SearchMatch, SearchMatchView, SearchRequest,
    SearchRequestView, SearchResponse, SearchResponseView,
};
pub use codes::{
    DeferredStatus, EmbedEncodingFormat, FinishReason, FormatType, ImageDetail, ImageFormat,
    IncludeOption, MessageRole, Modality, RankingMetric, ToolCallStatus, ToolCallType, ToolMode,
};
