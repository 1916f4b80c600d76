//! The alternatives of a tool definition.

use vstd::prelude::*;
use super::{
    CodeExecution, CodeExecutionView, CollectionsSearch, CollectionsSearchView, DocumentSearch,
    DocumentSearchView, Function, FunctionView, Mcp, McpView, WebSearch, WebSearchView, XSearch,
    XSearchView,
};

verus! {

/// The alternatives of a tool.
#[derive(Clone, Debug)]
pub enum Tool {
    /// Client-side function.
    Function(Function),
    /// Web search.
    WebSearch(WebSearch),
    /// Search of X posts.
    XSearch(XSearch),
    /// Code execution.
    CodeExecution(CodeExecution),
    /// Search of document collections.
    CollectionsSearch(CollectionsSearch),
    /// Model Context Protocol server.
    Mcp(Mcp),
    /// Document retrieval.
    DocumentSearch(DocumentSearch),
}

/// What a [`Tool`] holds, as mathematical values.
pub enum ToolView {
    Function(FunctionView),
    WebSearch(WebSearchView),
    XSearch(XSearchView),
    CodeExecution(CodeExecutionView),
    CollectionsSearch(CollectionsSearchView),
    Mcp(McpView),
    DocumentSearch(DocumentSearchView),
}

impl View for Tool {
    type V = ToolView;

    open spec fn view(&self) -> ToolView {
        match self {
            Tool::Function(inner) => ToolView::Function(inner@),
            Tool::WebSearch(inner) => ToolView::WebSearch(inner@),
            Tool::XSearch(inner) => ToolView::XSearch(inner@),
            Tool::CodeExecution(inner) => ToolView::CodeExecution(inner@),
            Tool::CollectionsSearch(inner) => ToolView::CollectionsSearch(inner@),
            Tool::Mcp(inner) => ToolView::Mcp(inner@),
            Tool::DocumentSearch(inner) => ToolView::DocumentSearch(inner@),
        }
    }
}

impl DeepView for Tool {
    type V = ToolView;

    open spec fn deep_view(&self) -> ToolView {
        self@
    }
}

} // verus!
