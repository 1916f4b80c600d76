//! The alternatives of a generated image.

use vstd::prelude::*;

verus! {

/// The alternatives of a generated image.
#[derive(Clone, Debug)]
pub enum Image {
    /// Image data in base64.
    Base64(String),
    /// Location of the image.
    Url(String),
}

/// What a [`Image`] holds, as mathematical values.
pub enum ImageView {
    Base64(Seq<char>),
    Url(Seq<char>),
}

impl View for Image {
    type V = ImageView;

    open spec fn view(&self) -> ImageView {
        match self {
            Image::Base64(inner) => ImageView::Base64(inner@),
            Image::Url(inner) => ImageView::Url(inner@),
        }
    }
}

impl DeepView for Image {
    type V = ImageView;

    open spec fn deep_view(&self) -> ImageView {
        self@
    }
}

} // verus!
