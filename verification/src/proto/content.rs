//! The alternatives of a message part.

use vstd::prelude::*;
use super::{FileContent, FileContentView, ImageUrlContent, ImageUrlContentView};

verus! {

/// The alternatives of a message part.
#[derive(Clone, Debug)]
pub enum Content {
    /// Plain text.
    Text(String),
    /// An image.
    ImageUrl(ImageUrlContent),
    /// An uploaded file.
    File(FileContent),
}

/// What a [`Content`] holds, as mathematical values.
pub enum ContentView {
    Text(Seq<char>),
    ImageUrl(ImageUrlContentView),
    File(FileContentView),
}

impl View for Content {
    type V = ContentView;

    open spec fn view(&self) -> ContentView {
        match self {
            Content::Text(inner) => ContentView::Text(inner@),
            Content::ImageUrl(inner) => ContentView::ImageUrl(inner@),
            Content::File(inner) => ContentView::File(inner@),
        }
    }
}

impl DeepView for Content {
    type V = ContentView;

    open spec fn deep_view(&self) -> ContentView {
        self@
    }
}

} // verus!
