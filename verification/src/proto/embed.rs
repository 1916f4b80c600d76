//! Messages of the embedding service.

use vstd::prelude::*;
use super::embed_input;
use crate::number::Float32;

verus! {

/// Request for embeddings.
#[derive(Clone, Debug)]
pub struct EmbedRequest {
    /// Inputs to embed.
    pub input: Vec<EmbedInput>,
    /// Model name or alias.
    pub model: String,
    /// Code of the vector encoding.
    pub encoding_format: i32,
    /// End-user identifier; empty when unset.
    pub user: String,
}

/// What a [`EmbedRequest`] holds, as mathematical values.
pub struct EmbedRequestView {
    pub input: Seq<EmbedInputView>,
    pub model: Seq<char>,
    pub encoding_format: i32,
    pub user: Seq<char>,
}

impl View for EmbedRequest {
    type V = EmbedRequestView;

    open spec fn view(&self) -> EmbedRequestView {
        EmbedRequestView {
            input: self.input.deep_view(),
            model: self.model@,
            encoding_format: self.encoding_format,
            user: self.user@,
        }
    }
}

impl DeepView for EmbedRequest {
    type V = EmbedRequestView;

    open spec fn deep_view(&self) -> EmbedRequestView {
        self@
    }
}

/// One input to embed.
#[derive(Clone, Debug)]
pub struct EmbedInput {
    /// The input; unset on a malformed message.
    pub input: Option<embed_input::Input>,
}

/// What a [`EmbedInput`] holds, as mathematical values.
pub struct EmbedInputView {
    pub input: Option<embed_input::InputView>,
}

impl View for EmbedInput {
    type V = EmbedInputView;

    open spec fn view(&self) -> EmbedInputView {
        EmbedInputView {
            input: self.input.deep_view(),
        }
    }
}

impl DeepView for EmbedInput {
    type V = EmbedInputView;

    open spec fn deep_view(&self) -> EmbedInputView {
        self@
    }
}

/// Embeddings of a request.
#[derive(Clone, Debug)]
pub struct EmbedResponse {
    /// Identifier of the request.
    pub id: String,
    /// One entry per input.
    pub embeddings: Vec<Embedding>,
    /// Accounting.
    pub usage: Option<EmbeddingUsage>,
    /// Model that answered.
    pub model: String,
    /// Backend fingerprint.
    pub system_fingerprint: String,
}

/// What a [`EmbedResponse`] holds, as mathematical values.
pub struct EmbedResponseView {
    pub id: Seq<char>,
    pub embeddings: Seq<EmbeddingView>,
    pub usage: Option<EmbeddingUsageView>,
    pub model: Seq<char>,
    pub system_fingerprint: Seq<char>,
}

impl View for EmbedResponse {
    type V = EmbedResponseView;

    open spec fn view(&self) -> EmbedResponseView {
        EmbedResponseView {
            id: self.id@,
            embeddings: self.embeddings.deep_view(),
            usage: self.usage.deep_view(),
            model: self.model@,
            system_fingerprint: self.system_fingerprint@,
        }
    }
}

impl DeepView for EmbedResponse {
    type V = EmbedResponseView;

    open spec fn deep_view(&self) -> EmbedResponseView {
        self@
    }
}

/// Embedding of one input.
#[derive(Clone, Debug)]
pub struct Embedding {
    /// Position of the input in the request.
    pub index: i32,
    /// Feature vectors of the input.
    pub embeddings: Vec<FeatureVector>,
}

/// What a [`Embedding`] holds, as mathematical values.
pub struct EmbeddingView {
    pub index: i32,
    pub embeddings: Seq<FeatureVectorView>,
}

impl View for Embedding {
    type V = EmbeddingView;

    open spec fn view(&self) -> EmbeddingView {
        EmbeddingView {
            index: self.index,
            embeddings: self.embeddings.deep_view(),
        }
    }
}

impl DeepView for Embedding {
    type V = EmbeddingView;

    open spec fn deep_view(&self) -> EmbeddingView {
        self@
    }
}

/// One vector, in one of two encodings.
#[derive(Clone, Debug)]
pub struct FeatureVector {
    /// Components as numbers.
    pub float_array: Vec<Float32>,
    /// Components as base64 of little-endian binary32.
    pub base64_array: String,
}

/// What a [`FeatureVector`] holds, as mathematical values.
pub struct FeatureVectorView {
    pub float_array: Seq<Float32>,
    pub base64_array: Seq<char>,
}

impl View for FeatureVector {
    type V = FeatureVectorView;

    open spec fn view(&self) -> FeatureVectorView {
        FeatureVectorView {
            float_array: self.float_array@,
            base64_array: self.base64_array@,
        }
    }
}

impl DeepView for FeatureVector {
    type V = FeatureVectorView;

    open spec fn deep_view(&self) -> FeatureVectorView {
        self@
    }
}

/// Accounting of an embedding request.
#[derive(Clone, Debug)]
pub struct EmbeddingUsage {
    /// Text inputs embedded.
    pub num_text_embeddings: i32,
    /// Image inputs embedded.
    pub num_image_embeddings: i32,
}

/// What a [`EmbeddingUsage`] holds, as mathematical values.
pub struct EmbeddingUsageView {
    pub num_text_embeddings: i32,
    pub num_image_embeddings: i32,
}

impl View for EmbeddingUsage {
    type V = EmbeddingUsageView;

    open spec fn view(&self) -> EmbeddingUsageView {
        EmbeddingUsageView {
            num_text_embeddings: self.num_text_embeddings,
            num_image_embeddings: self.num_image_embeddings,
        }
    }
}

impl DeepView for EmbeddingUsage {
    type V = EmbeddingUsageView;

    open spec fn deep_view(&self) -> EmbeddingUsageView {
        self@
    }
}

} // verus!
