//! Typed request and response model for the xAI Grok gRPC interface.
//!
//! The crate holds everything that the client computes: the request
//! builders, the conversions between the ergonomic types and the wire schema,
//! the assembly of responses and streamed chunks, and the rules of waiting
//! for a deferred completion. Sending and receiving is left to the caller.

pub mod api_key;
pub mod auth;
pub mod client;
pub mod copying;
pub mod documents;
pub mod embedding;
pub mod encoding;
pub mod endpoint;
pub mod error;
pub mod image;
pub mod json;
pub mod models;
pub mod number;
pub mod proto;
pub mod request;
pub mod response;
pub mod rpc;
pub mod sample;
pub mod secret;
pub mod text;
pub mod timing;
pub mod tokenize;
pub mod tools;

pub use api_key::ApiKeyInfo;
pub use client::config::GrokConfig;
pub use documents::{DocumentSearchRequest, DocumentSearchResponse, RankingMetric, SearchMatch};
pub use embedding::{
    EmbedEncodingFormat, EmbedInput, EmbedRequest, EmbedResponse, Embedding, EmbeddingUsage,
};
pub use error::GrokError;
pub use image::{GeneratedImage, ImageFormat, ImageGenerationRequest, ImageGenerationResponse};
pub use models::{EmbeddingModel, ImageGenerationModel, LanguageModel, Modality};
pub use number::Float32;
pub use proto::IncludeOption;
pub use request::{
    ChatRequest, CompletionOptions, ContentPart, ImageDetail, Message, MessageContent,
    ReasoningEffort, ResponseFormat, SearchConfig, SearchMode, SearchSource,
};
pub use response::{
    ChatChunk, ChatResponse, FinishReason, LogProb, LogProbs, TokenUsage, TopLogProb,
};
pub use sample::{SampleChoice, SampleRequest, SampleResponse};
pub use secret::Secret;
pub use tokenize::{Token, TokenizeRequest, TokenizeResponse};
pub use tools::{
    CollectionsSearchTool, DocumentSearchTool, FunctionCall, FunctionTool, McpTool, Tool, ToolCall,
    ToolCallKind, ToolCallStatusKind, ToolChoice, WebSearchTool, XSearchTool,
};
