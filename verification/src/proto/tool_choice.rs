//! The alternatives of a tool-choice policy.

use vstd::prelude::*;

verus! {

/// The alternatives of a tool-choice policy.
#[derive(Clone, Debug)]
pub enum ToolChoice {
    /// Code of a general mode.
    Mode(i32),
    /// Name of the one function to call.
    FunctionName(String),
}

/// What a [`ToolChoice`] holds, as mathematical values.
pub enum ToolChoiceView {
    Mode(i32),
    FunctionName(Seq<char>),
}

impl View for ToolChoice {
    type V = ToolChoiceView;

    open spec fn view(&self) -> ToolChoiceView {
        match self {
            ToolChoice::Mode(inner) => ToolChoiceView::Mode(*inner),
            ToolChoice::FunctionName(inner) => ToolChoiceView::FunctionName(inner@),
        }
    }
}

impl DeepView for ToolChoice {
    type V = ToolChoiceView;

    open spec fn deep_view(&self) -> ToolChoiceView {
        self@
    }
}

} // verus!
