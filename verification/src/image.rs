//! Image generation requests and responses.

use vstd::prelude::*;
use crate::proto;
use vstd::std_specs::convert::FromSpecImpl;

verus! {

/// Request to generate images from a prompt.
#[derive(Clone, Debug)]
pub struct ImageGenerationRequest {
    /// Description of the image.
    pub prompt: String,
    /// Source image, for image-to-image generation.
    pub image_url: Option<String>,
    /// Model name or alias.
    pub model: String,
    /// Number of images.
    pub n: Option<i32>,
    /// End-user identifier.
    pub user: Option<String>,
    /// Form in which the images are returned.
    pub format: ImageFormat,
}

/// What a [`ImageGenerationRequest`] holds, as mathematical values.
pub struct ImageGenerationRequestView {
    pub prompt: Seq<char>,
    pub image_url: Option<Seq<char>>,
    pub model: Seq<char>,
    pub n: Option<i32>,
    pub user: Option<Seq<char>>,
    pub format: ImageFormat,
}

impl View for ImageGenerationRequest {
    type V = ImageGenerationRequestView;

    open spec fn view(&self) -> ImageGenerationRequestView {
        ImageGenerationRequestView {
            prompt: self.prompt@,
            image_url: self.image_url.deep_view(),
            model: self.model@,
            n: self.n,
            user: self.user.deep_view(),
            format: self.format,
        }
    }
}

impl DeepView for ImageGenerationRequest {
    type V = ImageGenerationRequestView;

    open spec fn deep_view(&self) -> ImageGenerationRequestView {
        self@
    }
}

/// Form in which a generated image is returned.
#[derive(Clone, Copy, Debug, PartialEq, Eq, Structural)]
pub enum ImageFormat {
    /// Image data in base64.
    Base64,
    /// A URL to fetch the image from.
    Url,
}

/// Generated images.
#[derive(Clone, Debug)]
pub struct ImageGenerationResponse {
    /// The images.
    pub images: Vec<GeneratedImage>,
    /// Model that answered.
    pub model: String,
}

/// What a [`ImageGenerationResponse`] holds, as mathematical values.
pub struct ImageGenerationResponseView {
    pub images: Seq<GeneratedImageView>,
    pub model: Seq<char>,
}

impl View for ImageGenerationResponse {
    type V = ImageGenerationResponseView;

    open spec fn view(&self) -> ImageGenerationResponseView {
        ImageGenerationResponseView {
            images: self.images.deep_view(),
            model: self.model@,
        }
    }
}

impl DeepView for ImageGenerationResponse {
    type V = ImageGenerationResponseView;

    open spec fn deep_view(&self) -> ImageGenerationResponseView {
        self@
    }
}

/// One generated image.
#[derive(Clone, Debug)]
pub struct GeneratedImage {
    /// Image data in base64, when that form was asked for.
    pub base64: Option<String>,
    /// Location of the image, when that form was asked for.
    pub url: Option<String>,
    /// Prompt as rewritten by the service.
    pub upsampled_prompt: String,
    /// Whether the image passed moderation.
    pub respects_moderation: bool,
}

/// What a [`GeneratedImage`] holds, as mathematical values.
pub struct GeneratedImageView {
    pub base64: Option<Seq<char>>,
    pub url: Option<Seq<char>>,
    pub upsampled_prompt: Seq<char>,
    pub respects_moderation: bool,
}

impl View for GeneratedImage {
    type V = GeneratedImageView;

    open spec fn view(&self) -> GeneratedImageView {
        GeneratedImageView {
            base64: self.base64.deep_view(),
            url: self.url.deep_view(),
            upsampled_prompt: self.upsampled_prompt@,
            respects_moderation: self.respects_moderation,
        }
    }
}

impl DeepView for GeneratedImage {
    type V = GeneratedImageView;

    open spec fn deep_view(&self) -> GeneratedImageView {
        self@
    }
}

impl ImageFormat {
    /// The wire code of a format.
    pub open spec fn wire_code(self) -> i32 {
        match self {
            ImageFormat::Base64 => proto::ImageFormat::ImgFormatBase64.code_spec(),
            ImageFormat::Url => proto::ImageFormat::ImgFormatUrl.code_spec(),
        }
    }

    /// The wire code of the format.
    pub fn to_code(self) -> (code: i32)
        ensures
            code == self.wire_code(),
    {
        match self {
            ImageFormat::Base64 => proto::ImageFormat::ImgFormatBase64.code(),
            ImageFormat::Url => proto::ImageFormat::ImgFormatUrl.code(),
        }
    }
}

impl ImageGenerationRequestView {
    /// The wire form of the request. A source image is read at the automatic
    /// detail level, and an unset user goes out as the empty text.
    pub open spec fn wire(self) -> proto::GenerateImageRequestView {
        proto::GenerateImageRequestView {
            prompt: self.prompt,
            image: match self.image_url {
                Some(url) => Some(
                    proto::ImageUrlContentView {
                        image_url: url,
                        detail: proto::ImageDetail::DetailAuto.code_spec(),
                    },
                ),
                None => None,
            },
            model: self.model,
            n: self.n,
            user: match self.user {
                Some(user) => user,
                None => Seq::empty(),
            },
            format: self.format.wire_code(),
        }
    }
}

impl ImageGenerationRequest {
    /// A request for images of the given prompt from the given model,
    /// returned as URLs.
    pub fn new(model: &str, prompt: &str) -> (request: Self)
        ensures
            request@ == (ImageGenerationRequestView {
                prompt: prompt@,
                image_url: None,
                model: model@,
                n: None,
                user: None,
                format: ImageFormat::Url,
            }),
    {
        ImageGenerationRequest {
            prompt: prompt.to_string(),
            image_url: None,
            model: model.to_string(),
            n: None,
            user: None,
            format: ImageFormat::Url,
        }
    }

    /// Sets the number of images.
    pub fn with_n(self, n: i32) -> (request: Self)
        ensures
            request@ == (ImageGenerationRequestView { n: Some(n), ..self@ }),
    {
        let mut request = self;
        request.n = Some(n);
        request
    }

    /// Sets the source image, for image-to-image generation.
    pub fn with_source_image(self, url: &str) -> (request: Self)
        ensures
            request@ == (ImageGenerationRequestView { image_url: Some(url@), ..self@ }),
    {
        let mut request = self;
        request.image_url = Some(url.to_string());
        request
    }

    /// Sets the form in which the images are returned.
    pub fn with_format(self, format: ImageFormat) -> (request: Self)
        ensures
            request@ == (ImageGenerationRequestView { format: format, ..self@ }),
    {
        let mut request = self;
        request.format = format;
        request
    }

    /// Sets the end-user identifier.
    pub fn with_user(self, user: &str) -> (request: Self)
        ensures
            request@ == (ImageGenerationRequestView { user: Some(user@), ..self@ }),
    {
        let mut request = self;
        request.user = Some(user.to_string());
        request
    }
}

impl GeneratedImageView {
    /// The image that a wire message stands for: the data or the location,
    /// whichever the message carries, and neither where it carries none.
    pub open spec fn from_wire(wire: proto::GeneratedImageView) -> GeneratedImageView {
        GeneratedImageView {
            base64: match wire.image {
                Some(proto::generated_image::ImageView::Base64(data)) => Some(data),
                _ => None,
            },
            url: match wire.image {
                Some(proto::generated_image::ImageView::Url(url)) => Some(url),
                _ => None,
            },
            upsampled_prompt: wire.up_sampled_prompt,
            respects_moderation: wire.respect_moderation,
        }
    }
}

impl From<proto::GeneratedImage> for GeneratedImage {
    /// Reads a generated image from its wire message.
    fn from(proto: proto::GeneratedImage) -> (image: GeneratedImage)
        ensures
            image@ == GeneratedImageView::from_wire(proto@),
    {
        let (base64, url) = match proto.image {
            Some(proto::generated_image::Image::Base64(data)) => (Some(data), None),
            Some(proto::generated_image::Image::Url(url)) => (None, Some(url)),
            None => (None, None),
        };
        GeneratedImage {
            base64,
            url,
            upsampled_prompt: proto.up_sampled_prompt,
            respects_moderation: proto.respect_moderation,
        }
    }
}

impl FromSpecImpl<proto::GeneratedImage> for GeneratedImage {
    open spec fn obeys_from_spec() -> bool {
        false
    }

    open spec fn from_spec(proto: proto::GeneratedImage) -> GeneratedImage {
        arbitrary()
    }
}

impl ImageGenerationResponseView {
    /// The response that a wire message stands for: the images one for one
    /// and in the same order.
    pub open spec fn from_wire(wire: proto::ImageResponseView) -> ImageGenerationResponseView {
        ImageGenerationResponseView {
            images: Seq::new(
                wire.images.len(),
                |i: int| GeneratedImageView::from_wire(wire.images[i]),
            ),
            model: wire.model,
        }
    }
}

/// Reads a generated image from a wire message that stays with the caller.
fn image_from_proto_ref(wire: &proto::GeneratedImage) -> (image: GeneratedImage)
    ensures
        image@ == GeneratedImageView::from_wire(wire@),
{
    let (base64, url) = match &wire.image {
        Some(proto::generated_image::Image::Base64(data)) => (Some(data.clone()), None),
        Some(proto::generated_image::Image::Url(url)) => (None, Some(url.clone())),
        None => (None, None),
    };
    GeneratedImage {
        base64,
        url,
        upsampled_prompt: wire.up_sampled_prompt.clone(),
        respects_moderation: wire.respect_moderation,
    }
}

impl From<proto::ImageResponse> for ImageGenerationResponse {
    /// Reads an image generation response from its wire message.
    fn from(proto: proto::ImageResponse) -> (response: ImageGenerationResponse)
        ensures
            response@ == ImageGenerationResponseView::from_wire(proto@),
    {
        let mut images: Vec<GeneratedImage> = Vec::new();
        let mut i: usize = 0;
        while i < proto.images.len()
            invariant
                i <= proto.images@.len(),
                images@.len() == i,
                forall|j: int|
                    0 <= j < i ==> (#[trigger] images@[j])@ == GeneratedImageView::from_wire(
                        proto.images@[j]@,
                    ),
            decreases proto.images@.len() - i,
        {
            images.push(image_from_proto_ref(&proto.images[i]));
            i += 1;
        }
        assert(images.deep_view() =~= ImageGenerationResponseView::from_wire(proto@).images);
        ImageGenerationResponse { images, model: proto.model }
    }
}

impl FromSpecImpl<proto::ImageResponse> for ImageGenerationResponse {
    open spec fn obeys_from_spec() -> bool {
        false
    }

    open spec fn from_spec(proto: proto::ImageResponse) -> ImageGenerationResponse {
        arbitrary()
    }
}

} // verus!
