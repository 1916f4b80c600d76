//! Tool definitions and tool calls.

use vstd::prelude::*;
use super::{tool, tool_call, tool_choice};
use std::collections::HashMap;

verus! {

/// A tool offered to the model.
#[derive(Clone, Debug)]
pub struct Tool {
    /// The tool; unset on a malformed message.
    pub tool: Option<tool::Tool>,
}

/// What a [`Tool`] holds, as mathematical values.
pub struct ToolView {
    pub tool: Option<tool::ToolView>,
}

impl View for Tool {
    type V = ToolView;

    open spec fn view(&self) -> ToolView {
        ToolView {
            tool: self.tool.deep_view(),
        }
    }
}

impl DeepView for Tool {
    type V = ToolView;

    open spec fn deep_view(&self) -> ToolView {
        self@
    }
}

/// A client-side function.
#[derive(Clone, Debug)]
pub struct Function {
    /// Name of the function.
    pub name: String,
    /// What the function does.
    pub description: String,
    /// Whether arguments must match the schema exactly.
    pub strict: bool,
    /// JSON schema of the parameters, as text.
    pub parameters: String,
}

/// What a [`Function`] holds, as mathematical values.
pub struct FunctionView {
    pub name: Seq<char>,
    pub description: Seq<char>,
    pub strict: bool,
    pub parameters: Seq<char>,
}

impl View for Function {
    type V = FunctionView;

    open spec fn view(&self) -> FunctionView {
        FunctionView {
            name: self.name@,
            description: self.description@,
            strict: self.strict,
            parameters: self.parameters@,
        }
    }
}

impl DeepView for Function {
    type V = FunctionView;

    open spec fn deep_view(&self) -> FunctionView {
        self@
    }
}

/// Server-side web search.
#[derive(Clone, Debug)]
pub struct WebSearch {
    /// Domains left out of the results.
    pub excluded_domains: Vec<String>,
    /// Domains the results are restricted to.
    pub allowed_domains: Vec<String>,
    /// Whether images in results are analysed.
    pub enable_image_understanding: Option<bool>,
}

/// What a [`WebSearch`] holds, as mathematical values.
pub struct WebSearchView {
    pub excluded_domains: Seq<Seq<char>>,
    pub allowed_domains: Seq<Seq<char>>,
    pub enable_image_understanding: Option<bool>,
}

impl View for WebSearch {
    type V = WebSearchView;

    open spec fn view(&self) -> WebSearchView {
        WebSearchView {
            excluded_domains: self.excluded_domains.deep_view(),
            allowed_domains: self.allowed_domains.deep_view(),
            enable_image_understanding: self.enable_image_understanding,
        }
    }
}

impl DeepView for WebSearch {
    type V = WebSearchView;

    open spec fn deep_view(&self) -> WebSearchView {
        self@
    }
}

/// Server-side search of X posts.
#[derive(Clone, Debug)]
pub struct XSearch {
    /// Earliest post time.
    pub from_date: Option<prost_types::Timestamp>,
    /// Latest post time.
    pub to_date: Option<prost_types::Timestamp>,
    /// Handles the results are restricted to.
    pub allowed_x_handles: Vec<String>,
    /// Handles left out of the results.
    pub excluded_x_handles: Vec<String>,
    /// Whether images are analysed.
    pub enable_image_understanding: Option<bool>,
    /// Whether videos are analysed.
    pub enable_video_understanding: Option<bool>,
}

/// What a [`XSearch`] holds, as mathematical values.
pub struct XSearchView {
    pub from_date: Option<prost_types::Timestamp>,
    pub to_date: Option<prost_types::Timestamp>,
    pub allowed_x_handles: Seq<Seq<char>>,
    pub excluded_x_handles: Seq<Seq<char>>,
    pub enable_image_understanding: Option<bool>,
    pub enable_video_understanding: Option<bool>,
}

impl View for XSearch {
    type V = XSearchView;

    open spec fn view(&self) -> XSearchView {
        XSearchView {
            from_date: self.from_date,
            to_date: self.to_date,
            allowed_x_handles: self.allowed_x_handles.deep_view(),
            excluded_x_handles: self.excluded_x_handles.deep_view(),
            enable_image_understanding: self.enable_image_understanding,
            enable_video_understanding: self.enable_video_understanding,
        }
    }
}

impl DeepView for XSearch {
    type V = XSearchView;

    open spec fn deep_view(&self) -> XSearchView {
        self@
    }
}

/// Server-side code execution; it has no settings.
#[derive(Clone, Debug)]
pub struct CodeExecution {
}

/// What a [`CodeExecution`] holds, as mathematical values.
pub struct CodeExecutionView {
}

impl View for CodeExecution {
    type V = CodeExecutionView;

    open spec fn view(&self) -> CodeExecutionView {
        CodeExecutionView {
        }
    }
}

impl DeepView for CodeExecution {
    type V = CodeExecutionView;

    open spec fn deep_view(&self) -> CodeExecutionView {
        self@
    }
}

/// Server-side search of document collections.
#[derive(Clone, Debug)]
pub struct CollectionsSearch {
    /// Collections to search.
    pub collection_ids: Vec<String>,
    /// Chunks returned per collection.
    pub limit: Option<i32>,
}

/// What a [`CollectionsSearch`] holds, as mathematical values.
pub struct CollectionsSearchView {
    pub collection_ids: Seq<Seq<char>>,
    pub limit: Option<i32>,
}

impl View for CollectionsSearch {
    type V = CollectionsSearchView;

    open spec fn view(&self) -> CollectionsSearchView {
        CollectionsSearchView {
            collection_ids: self.collection_ids.deep_view(),
            limit: self.limit,
        }
    }
}

impl DeepView for CollectionsSearch {
    type V = CollectionsSearchView;

    open spec fn deep_view(&self) -> CollectionsSearchView {
        self@
    }
}

/// A Model Context Protocol server.
#[derive(Clone, Debug)]
pub struct Mcp {
    /// Label of the server.
    pub server_label: String,
    /// Description of the server.
    pub server_description: String,
    /// URL of the server.
    pub server_url: String,
    /// Tools of the server that may be called.
    pub allowed_tool_names: Vec<String>,
    /// Authorization token.
    pub authorization: Option<String>,
    /// Headers sent along.
    pub extra_headers: HashMap<String, String>,
}

/// What a [`Mcp`] holds, as mathematical values.
pub struct McpView {
    pub server_label: Seq<char>,
    pub server_description: Seq<char>,
    pub server_url: Seq<char>,
    pub allowed_tool_names: Seq<Seq<char>>,
    pub authorization: Option<Seq<char>>,
    pub extra_headers: Map<Seq<char>, Seq<char>>,
}

impl View for Mcp {
    type V = McpView;

    open spec fn view(&self) -> McpView {
        McpView {
            server_label: self.server_label@,
            server_description: self.server_description@,
            server_url: self.server_url@,
            allowed_tool_names: self.allowed_tool_names.deep_view(),
            authorization: self.authorization.deep_view(),
            extra_headers: self.extra_headers.deep_view(),
        }
    }
}

impl DeepView for Mcp {
    type V = McpView;

    open spec fn deep_view(&self) -> McpView {
        self@
    }
}

/// Server-side document retrieval.
#[derive(Clone, Debug)]
pub struct DocumentSearch {
    /// Files the search is limited to.
    pub limit: Option<i32>,
}

/// What a [`DocumentSearch`] holds, as mathematical values.
pub struct DocumentSearchView {
    pub limit: Option<i32>,
}

impl View for DocumentSearch {
    type V = DocumentSearchView;

    open spec fn view(&self) -> DocumentSearchView {
        DocumentSearchView {
            limit: self.limit,
        }
    }
}

impl DeepView for DocumentSearch {
    type V = DocumentSearchView;

    open spec fn deep_view(&self) -> DocumentSearchView {
        self@
    }
}

/// Policy for calling tools.
#[derive(Clone, Debug)]
pub struct ToolChoice {
    /// The policy; unset on a malformed message.
    pub tool_choice: Option<tool_choice::ToolChoice>,
}

/// What a [`ToolChoice`] holds, as mathematical values.
pub struct ToolChoiceView {
    pub tool_choice: Option<tool_choice::ToolChoiceView>,
}

impl View for ToolChoice {
    type V = ToolChoiceView;

    open spec fn view(&self) -> ToolChoiceView {
        ToolChoiceView {
            tool_choice: self.tool_choice.deep_view(),
        }
    }
}

impl DeepView for ToolChoice {
    type V = ToolChoiceView;

    open spec fn deep_view(&self) -> ToolChoiceView {
        self@
    }
}

/// A tool call made by the model.
#[derive(Clone, Debug)]
pub struct ToolCall {
    /// Identifier of the call.
    pub id: String,
    /// Code of the kind of tool.
    pub call_type: i32,
    /// Code of the state of the call.
    pub status: i32,
    /// Why the call failed.
    pub error_message: Option<String>,
    /// The call itself.
    pub tool: Option<tool_call::Tool>,
}

/// What a [`ToolCall`] holds, as mathematical values.
pub struct ToolCallView {
    pub id: Seq<char>,
    pub call_type: i32,
    pub status: i32,
    pub error_message: Option<Seq<char>>,
    pub tool: Option<tool_call::ToolView>,
}

impl View for ToolCall {
    type V = ToolCallView;

    open spec fn view(&self) -> ToolCallView {
        ToolCallView {
            id: self.id@,
            call_type: self.call_type,
            status: self.status,
            error_message: self.error_message.deep_view(),
            tool: self.tool.deep_view(),
        }
    }
}

impl DeepView for ToolCall {
    type V = ToolCallView;

    open spec fn deep_view(&self) -> ToolCallView {
        self@
    }
}

/// Name and arguments of a called function.
#[derive(Clone, Debug)]
pub struct FunctionCall {
    /// Name of the function.
    pub name: String,
    /// Arguments, as JSON text.
    pub arguments: String,
}

/// What a [`FunctionCall`] holds, as mathematical values.
pub struct FunctionCallView {
    pub name: Seq<char>,
    pub arguments: Seq<char>,
}

impl View for FunctionCall {
    type V = FunctionCallView;

    open spec fn view(&self) -> FunctionCallView {
        FunctionCallView {
            name: self.name@,
            arguments: self.arguments@,
        }
    }
}

impl DeepView for FunctionCall {
    type V = FunctionCallView;

    open spec fn deep_view(&self) -> FunctionCallView {
        self@
    }
}

} // verus!
