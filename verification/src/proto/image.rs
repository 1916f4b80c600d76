//! Messages of the image generation service.

use vstd::prelude::*;
use super::{generated_image, ImageUrlContent, ImageUrlContentView};

verus! {

/// Request to generate images.
#[derive(Clone, Debug)]
pub struct GenerateImageRequest {
    /// Description of the image.
    pub prompt: String,
    /// Source image, for image-to-image generation.
    pub image: Option<ImageUrlContent>,
    /// Model name or alias.
    pub model: String,
    /// Number of images.
    pub n: Option<i32>,
    /// End-user identifier; empty when unset.
    pub user: String,
    /// Code of the output format.
    pub format: i32,
}

/// What a [`GenerateImageRequest`] holds, as mathematical values.
pub struct GenerateImageRequestView {
    pub prompt: Seq<char>,
    pub image: Option<ImageUrlContentView>,
    pub model: Seq<char>,
    pub n: Option<i32>,
    pub user: Seq<char>,
    pub format: i32,
}

impl View for GenerateImageRequest {
    type V = GenerateImageRequestView;

    open spec fn view(&self) -> GenerateImageRequestView {
        GenerateImageRequestView {
            prompt: self.prompt@,
            image: self.image.deep_view(),
            model: self.model@,
            n: self.n,
            user: self.user@,
            format: self.format,
        }
    }
}

impl DeepView for GenerateImageRequest {
    type V = GenerateImageRequestView;

    open spec fn deep_view(&self) -> GenerateImageRequestView {
        self@
    }
}

/// Generated images.
#[derive(Clone, Debug)]
pub struct ImageResponse {
    /// The images.
    pub images: Vec<GeneratedImage>,
    /// Model that answered.
    pub model: String,
}

/// What a [`ImageResponse`] holds, as mathematical values.
pub struct ImageResponseView {
    pub images: Seq<GeneratedImageView>,
    pub model: Seq<char>,
}

impl View for ImageResponse {
    type V = ImageResponseView;

    open spec fn view(&self) -> ImageResponseView {
        ImageResponseView {
            images: self.images.deep_view(),
            model: self.model@,
        }
    }
}

impl DeepView for ImageResponse {
    type V = ImageResponseView;

    open spec fn deep_view(&self) -> ImageResponseView {
        self@
    }
}

/// One generated image.
#[derive(Clone, Debug)]
pub struct GeneratedImage {
    /// The image data or its location.
    pub image: Option<generated_image::Image>,
    /// Prompt as rewritten by the service.
    pub up_sampled_prompt: String,
    /// Whether the image passed moderation.
    pub respect_moderation: bool,
}

/// What a [`GeneratedImage`] holds, as mathematical values.
pub struct GeneratedImageView {
    pub image: Option<generated_image::ImageView>,
    pub up_sampled_prompt: Seq<char>,
    pub respect_moderation: bool,
}

impl View for GeneratedImage {
    type V = GeneratedImageView;

    open spec fn view(&self) -> GeneratedImageView {
        GeneratedImageView {
            image: self.image.deep_view(),
            up_sampled_prompt: self.up_sampled_prompt@,
            respect_moderation: self.respect_moderation,
        }
    }
}

impl DeepView for GeneratedImage {
    type V = GeneratedImageView;

    open spec fn deep_view(&self) -> GeneratedImageView {
        self@
    }
}

} // verus!
