//! Embedding requests and responses.

use vstd::prelude::*;
use crate::number::{i32_as_u32, reinterpret_i32_as_u32};
use crate::proto;
use vstd::std_specs::convert::FromSpecImpl;
use crate::number::Float32;
use crate::request::ImageDetail;

verus! {

/// Request for embeddings of texts and images.
#[derive(Clone, Debug)]
pub struct EmbedRequest {
    /// Inputs to embed, in order.
    pub inputs: Vec<EmbedInput>,
    /// Model name or alias.
    pub model: String,
    /// Encoding in which the vectors are returned.
    pub encoding_format: EmbedEncodingFormat,
    /// End-user identifier.
    pub user: Option<String>,
}

/// What a [`EmbedRequest`] holds, as mathematical values.
pub struct EmbedRequestView {
    pub inputs: Seq<EmbedInputView>,
    pub model: Seq<char>,
    pub encoding_format: EmbedEncodingFormat,
    pub user: Option<Seq<char>>,
}

impl View for EmbedRequest {
    type V = EmbedRequestView;

    open spec fn view(&self) -> EmbedRequestView {
        EmbedRequestView {
            inputs: self.inputs.deep_view(),
            model: self.model@,
            encoding_format: self.encoding_format,
            user: self.user.deep_view(),
        }
    }
}

impl DeepView for EmbedRequest {
    type V = EmbedRequestView;

    open spec fn deep_view(&self) -> EmbedRequestView {
        self@
    }
}

/// One input to embed.
#[derive(Clone, Debug)]
pub enum EmbedInput {
    /// A text.
    Text(String),
    /// An image, by URL.
    Image {
        /// URL of the image.
        url: String,
        /// Detail at which the image is read.
        detail: ImageDetail,
    },
}

/// What a [`EmbedInput`] holds, as mathematical values.
pub enum EmbedInputView {
    Text(Seq<char>),
    Image { url: Seq<char>, detail: ImageDetail },
}

impl View for EmbedInput {
    type V = EmbedInputView;

    open spec fn view(&self) -> EmbedInputView {
        match self {
            EmbedInput::Text(inner) => EmbedInputView::Text(inner@),
            EmbedInput::Image { url, detail } => EmbedInputView::Image { url: url@, detail: *detail },
        }
    }
}

impl DeepView for EmbedInput {
    type V = EmbedInputView;

    open spec fn deep_view(&self) -> EmbedInputView {
        self@
    }
}

/// Encoding in which embedding vectors are returned.
#[derive(Clone, Copy, Debug, PartialEq, Eq, Structural)]
pub enum EmbedEncodingFormat {
    /// Arrays of numbers.
    Float,
    /// Base64 text.
    Base64,
}

/// Embeddings of a request.
#[derive(Clone, Debug)]
pub struct EmbedResponse {
    /// Identifier of the request.
    pub id: String,
    /// One embedding per input.
    pub embeddings: Vec<Embedding>,
    /// Accounting.
    pub usage: EmbeddingUsage,
    /// Model that answered.
    pub model: String,
    /// Backend fingerprint.
    pub system_fingerprint: String,
}

/// What a [`EmbedResponse`] holds, as mathematical values.
pub struct EmbedResponseView {
    pub id: Seq<char>,
    pub embeddings: Seq<EmbeddingView>,
    pub usage: EmbeddingUsage,
    pub model: Seq<char>,
    pub system_fingerprint: Seq<char>,
}

impl View for EmbedResponse {
    type V = EmbedResponseView;

    open spec fn view(&self) -> EmbedResponseView {
        EmbedResponseView {
            id: self.id@,
            embeddings: self.embeddings.deep_view(),
            usage: self.usage,
            model: self.model@,
            system_fingerprint: self.system_fingerprint@,
        }
    }
}

impl DeepView for EmbedResponse {
    type V = EmbedResponseView;

    open spec fn deep_view(&self) -> EmbedResponseView {
        self@
    }
}

/// Embedding of one input.
#[derive(Clone, Debug)]
pub struct Embedding {
    /// Position of the input in the request.
    pub index: usize,
    /// The vector.
    pub vector: Vec<Float32>,
}

/// What a [`Embedding`] holds, as mathematical values.
pub struct EmbeddingView {
    pub index: usize,
    pub vector: Seq<Float32>,
}

impl View for Embedding {
    type V = EmbeddingView;

    open spec fn view(&self) -> EmbeddingView {
        EmbeddingView {
            index: self.index,
            vector: self.vector@,
        }
    }
}

impl DeepView for Embedding {
    type V = EmbeddingView;

    open spec fn deep_view(&self) -> EmbeddingView {
        self@
    }
}

/// Accounting of an embedding request.
#[derive(Clone, Copy, Debug, PartialEq, Eq, Structural)]
pub struct EmbeddingUsage {
    /// Text inputs embedded.
    pub num_text_embeddings: u32,
    /// Image inputs embedded.
    pub num_image_embeddings: u32,
}

impl EmbedRequest {
    /// A request to the given model with no input yet, for vectors of numbers.
    pub fn new(model: &str) -> (request: Self)
        ensures
            request@ == (EmbedRequestView {
                inputs: Seq::empty(),
                model: model@,
                encoding_format: EmbedEncodingFormat::Float,
                user: None,
            }),
    {
        let request = EmbedRequest {
            inputs: Vec::new(),
            model: model.to_string(),
            encoding_format: EmbedEncodingFormat::Float,
            user: None,
        };
        assert(request.inputs.deep_view() =~= Seq::empty());
        request
    }

    /// Appends a text to embed.
    pub fn add_text(self, text: &str) -> (request: Self)
        ensures
            request@ == (EmbedRequestView {
                inputs: self@.inputs.push(EmbedInputView::Text(text@)),
                ..self@
            }),
    {
        let mut request = self;
        request.inputs.push(EmbedInput::Text(text.to_string()));
        assert(request.inputs.deep_view() =~= self.inputs.deep_view().push(
            EmbedInputView::Text(text@),
        ));
        request
    }

    /// Appends an image to embed, read at the automatic detail level.
    pub fn add_image(self, url: &str) -> (request: Self)
        ensures
            request@ == (EmbedRequestView {
                inputs: self@.inputs.push(
                    EmbedInputView::Image { url: url@, detail: ImageDetail::Auto },
                ),
                ..self@
            }),
    {
        self.add_image_with_detail(url, ImageDetail::Auto)
    }

    /// Appends an image to embed, read at the given detail level.
    pub fn add_image_with_detail(self, url: &str, detail: ImageDetail) -> (request: Self)
        ensures
            request@ == (EmbedRequestView {
                inputs: self@.inputs.push(EmbedInputView::Image { url: url@, detail: detail }),
                ..self@
            }),
    {
        let mut request = self;
        request.inputs.push(EmbedInput::Image { url: url.to_string(), detail });
        assert(request.inputs.deep_view() =~= self.inputs.deep_view().push(
            EmbedInputView::Image { url: url@, detail: detail },
        ));
        request
    }

    /// Sets the encoding in which the vectors are returned.
    pub fn with_encoding_format(self, format: EmbedEncodingFormat) -> (request: Self)
        ensures
            request@ == (EmbedRequestView { encoding_format: format, ..self@ }),
    {
        let mut request = self;
        request.encoding_format = format;
        request
    }

    /// Sets the end-user identifier.
    pub fn with_user(self, user: &str) -> (request: Self)
        ensures
            request@ == (EmbedRequestView { user: Some(user@), ..self@ }),
    {
        let mut request = self;
        request.user = Some(user.to_string());
        request
    }
}

impl EmbeddingUsage {
    /// The accounting that a wire message reports.
    pub open spec fn from_wire(wire: proto::EmbeddingUsageView) -> EmbeddingUsage {
        EmbeddingUsage {
            num_text_embeddings: reinterpret_i32_as_u32(wire.num_text_embeddings),
            num_image_embeddings: reinterpret_i32_as_u32(wire.num_image_embeddings),
        }
    }
}

impl Default for EmbeddingUsage {
    /// Nothing embedded.
    fn default() -> (usage: EmbeddingUsage)
        ensures
            usage == (EmbeddingUsage { num_text_embeddings: 0, num_image_embeddings: 0 }),
    {
        EmbeddingUsage { num_text_embeddings: 0, num_image_embeddings: 0 }
    }
}

impl From<proto::EmbeddingUsage> for EmbeddingUsage {
    /// Reads the accounting from its wire message.
    fn from(proto: proto::EmbeddingUsage) -> (usage: EmbeddingUsage)
        ensures
            usage == EmbeddingUsage::from_wire(proto@),
    {
        EmbeddingUsage {
            num_text_embeddings: i32_as_u32(proto.num_text_embeddings),
            num_image_embeddings: i32_as_u32(proto.num_image_embeddings),
        }
    }
}

impl FromSpecImpl<proto::EmbeddingUsage> for EmbeddingUsage {
    open spec fn obeys_from_spec() -> bool {
        true
    }

    open spec fn from_spec(proto: proto::EmbeddingUsage) -> EmbeddingUsage {
        EmbeddingUsage::from_wire(proto@)
    }
}

} // verus!
