//! The alternatives of an embedding input.

use vstd::prelude::*;
use super::{ImageUrlContent, ImageUrlContentView};

verus! {

/// The alternatives of an embedding input.
#[derive(Clone, Debug)]
pub enum Input {
    /// Text.
    String(String),
    /// An image.
    ImageUrl(ImageUrlContent),
}

/// What a [`Input`] holds, as mathematical values.
pub enum InputView {
    String(Seq<char>),
    ImageUrl(ImageUrlContentView),
}

impl View for Input {
    type V = InputView;

    open spec fn view(&self) -> InputView {
        match self {
            Input::String(inner) => InputView::String(inner@),
            Input::ImageUrl(inner) => InputView::ImageUrl(inner@),
        }
    }
}

impl DeepView for Input {
    type V = InputView;

    open spec fn deep_view(&self) -> InputView {
        self@
    }
}

} // verus!
