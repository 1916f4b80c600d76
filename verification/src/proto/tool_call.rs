//! The alternatives of a tool call.

use vstd::prelude::*;
use super::{FunctionCall, FunctionCallView};

verus! {

/// The alternatives of a tool call.
#[derive(Clone, Debug)]
pub enum Tool {
    /// A function call.
    Function(FunctionCall),
}

/// What a [`Tool`] holds, as mathematical values.
pub enum ToolView {
    Function(FunctionCallView),
}

impl View for Tool {
    type V = ToolView;

    open spec fn view(&self) -> ToolView {
        match self {
            Tool::Function(inner) => ToolView::Function(inner@),
        }
    }
}

impl DeepView for Tool {
    type V = ToolView;

    open spec fn deep_view(&self) -> ToolView {
        self@
    }
}

} // verus!
