//! Messages of the model listing service.

use vstd::prelude::*;

verus! {

/// Description of a language model.
#[derive(Clone, Debug)]
pub struct LanguageModel {
    /// Model name.
    pub name: String,
    /// Other names of the model.
    pub aliases: Vec<String>,
    /// Version of the model.
    pub version: String,
    /// Codes of the accepted input kinds.
    pub input_modalities: Vec<i32>,
    /// Codes of the produced output kinds.
    pub output_modalities: Vec<i32>,
    /// Price of prompt text tokens.
    pub prompt_text_token_price: i64,
    /// Price of prompt image tokens.
    pub prompt_image_token_price: i64,
    /// Price of cached prompt tokens.
    pub cached_prompt_token_price: i64,
    /// Price of completion tokens.
    pub completion_text_token_price: i64,
    /// Price of searches.
    pub search_price: i64,
    /// Time of creation.
    pub created: Option<prost_types::Timestamp>,
    /// Context length in tokens.
    pub max_prompt_length: i32,
    /// Backend fingerprint.
    pub system_fingerprint: String,
}

/// What a [`LanguageModel`] holds, as mathematical values.
pub struct LanguageModelView {
    pub name: Seq<char>,
    pub aliases: Seq<Seq<char>>,
    pub version: Seq<char>,
    pub input_modalities: Seq<i32>,
    pub output_modalities: Seq<i32>,
    pub prompt_text_token_price: i64,
    pub prompt_image_token_price: i64,
    pub cached_prompt_token_price: i64,
    pub completion_text_token_price: i64,
    pub search_price: i64,
    pub created: Option<prost_types::Timestamp>,
    pub max_prompt_length: i32,
    pub system_fingerprint: Seq<char>,
}

impl View for LanguageModel {
    type V = LanguageModelView;

    open spec fn view(&self) -> LanguageModelView {
        LanguageModelView {
            name: self.name@,
            aliases: self.aliases.deep_view(),
            version: self.version@,
            input_modalities: self.input_modalities@,
            output_modalities: self.output_modalities@,
            prompt_text_token_price: self.prompt_text_token_price,
            prompt_image_token_price: self.prompt_image_token_price,
            cached_prompt_token_price: self.cached_prompt_token_price,
            completion_text_token_price: self.completion_text_token_price,
            search_price: self.search_price,
            created: self.created,
            max_prompt_length: self.max_prompt_length,
            system_fingerprint: self.system_fingerprint@,
        }
    }
}

impl DeepView for LanguageModel {
    type V = LanguageModelView;

    open spec fn deep_view(&self) -> LanguageModelView {
        self@
    }
}

/// Description of an embedding model.
#[derive(Clone, Debug)]
pub struct EmbeddingModel {
    /// Model name.
    pub name: String,
    /// Other names of the model.
    pub aliases: Vec<String>,
    /// Version of the model.
    pub version: String,
    /// Codes of the accepted input kinds.
    pub input_modalities: Vec<i32>,
    /// Codes of the produced output kinds.
    pub output_modalities: Vec<i32>,
    /// Price of prompt text tokens.
    pub prompt_text_token_price: i64,
    /// Price of prompt image tokens.
    pub prompt_image_token_price: i64,
    /// Backend fingerprint.
    pub system_fingerprint: String,
}

/// What a [`EmbeddingModel`] holds, as mathematical values.
pub struct EmbeddingModelView {
    pub name: Seq<char>,
    pub aliases: Seq<Seq<char>>,
    pub version: Seq<char>,
    pub input_modalities: Seq<i32>,
    pub output_modalities: Seq<i32>,
    pub prompt_text_token_price: i64,
    pub prompt_image_token_price: i64,
    pub system_fingerprint: Seq<char>,
}

impl View for EmbeddingModel {
    type V = EmbeddingModelView;

    open spec fn view(&self) -> EmbeddingModelView {
        EmbeddingModelView {
            name: self.name@,
            aliases: self.aliases.deep_view(),
            version: self.version@,
            input_modalities: self.input_modalities@,
            output_modalities: self.output_modalities@,
            prompt_text_token_price: self.prompt_text_token_price,
            prompt_image_token_price: self.prompt_image_token_price,
            system_fingerprint: self.system_fingerprint@,
        }
    }
}

impl DeepView for EmbeddingModel {
    type V = EmbeddingModelView;

    open spec fn deep_view(&self) -> EmbeddingModelView {
        self@
    }
}

/// Description of an image generation model.
#[derive(Clone, Debug)]
pub struct ImageGenerationModel {
    /// Model name.
    pub name: String,
    /// Other names of the model.
    pub aliases: Vec<String>,
    /// Version of the model.
    pub version: String,
    /// Codes of the accepted input kinds.
    pub input_modalities: Vec<i32>,
    /// Codes of the produced output kinds.
    pub output_modalities: Vec<i32>,
    /// Price per image.
    pub image_price: i64,
    /// Prompt length in tokens.
    pub max_prompt_length: i32,
    /// Backend fingerprint.
    pub system_fingerprint: String,
}

/// What a [`ImageGenerationModel`] holds, as mathematical values.
pub struct ImageGenerationModelView {
    pub name: Seq<char>,
    pub aliases: Seq<Seq<char>>,
    pub version: Seq<char>,
    pub input_modalities: Seq<i32>,
    pub output_modalities: Seq<i32>,
    pub image_price: i64,
    pub max_prompt_length: i32,
    pub system_fingerprint: Seq<char>,
}

impl View for ImageGenerationModel {
    type V = ImageGenerationModelView;

    open spec fn view(&self) -> ImageGenerationModelView {
        ImageGenerationModelView {
            name: self.name@,
            aliases: self.aliases.deep_view(),
            version: self.version@,
            input_modalities: self.input_modalities@,
            output_modalities: self.output_modalities@,
            image_price: self.image_price,
            max_prompt_length: self.max_prompt_length,
            system_fingerprint: self.system_fingerprint@,
        }
    }
}

impl DeepView for ImageGenerationModel {
    type V = ImageGenerationModelView;

    open spec fn deep_view(&self) -> ImageGenerationModelView {
        self@
    }
}

/// Asks for the description of one model.
#[derive(Clone, Debug)]
pub struct GetModelRequest {
    /// Model name or alias.
    pub name: String,
}

/// What a [`GetModelRequest`] holds, as mathematical values.
pub struct GetModelRequestView {
    pub name: Seq<char>,
}

impl View for GetModelRequest {
    type V = GetModelRequestView;

    open spec fn view(&self) -> GetModelRequestView {
        GetModelRequestView {
            name: self.name@,
        }
    }
}

impl DeepView for GetModelRequest {
    type V = GetModelRequestView;

    open spec fn deep_view(&self) -> GetModelRequestView {
        self@
    }
}

/// The language models on offer.
#[derive(Clone, Debug)]
pub struct ListLanguageModelsResponse {
    /// One entry per model.
    pub models: Vec<LanguageModel>,
}

/// What a [`ListLanguageModelsResponse`] holds, as mathematical values.
pub struct ListLanguageModelsResponseView {
    pub models: Seq<LanguageModelView>,
}

impl View for ListLanguageModelsResponse {
    type V = ListLanguageModelsResponseView;

    open spec fn view(&self) -> ListLanguageModelsResponseView {
        ListLanguageModelsResponseView {
            models: self.models.deep_view(),
        }
    }
}

impl DeepView for ListLanguageModelsResponse {
    type V = ListLanguageModelsResponseView;

    open spec fn deep_view(&self) -> ListLanguageModelsResponseView {
        self@
    }
}

/// The embedding models on offer.
#[derive(Clone, Debug)]
pub struct ListEmbeddingModelsResponse {
    /// One entry per model.
    pub models: Vec<EmbeddingModel>,
}

/// What a [`ListEmbeddingModelsResponse`] holds, as mathematical values.
pub struct ListEmbeddingModelsResponseView {
    pub models: Seq<EmbeddingModelView>,
}

impl View for ListEmbeddingModelsResponse {
    type V = ListEmbeddingModelsResponseView;

    open spec fn view(&self) -> ListEmbeddingModelsResponseView {
        ListEmbeddingModelsResponseView {
            models: self.models.deep_view(),
        }
    }
}

impl DeepView for ListEmbeddingModelsResponse {
    type V = ListEmbeddingModelsResponseView;

    open spec fn deep_view(&self) -> ListEmbeddingModelsResponseView {
        self@
    }
}

/// The image generation models on offer.
#[derive(Clone, Debug)]
pub struct ListImageGenerationModelsResponse {
    /// One entry per model.
    pub models: Vec<ImageGenerationModel>,
}

/// What a [`ListImageGenerationModelsResponse`] holds, as mathematical values.
pub struct ListImageGenerationModelsResponseView {
    pub models: Seq<ImageGenerationModelView>,
}

impl View for ListImageGenerationModelsResponse {
    type V = ListImageGenerationModelsResponseView;

    open spec fn view(&self) -> ListImageGenerationModelsResponseView {
        ListImageGenerationModelsResponseView {
            models: self.models.deep_view(),
        }
    }
}

impl DeepView for ListImageGenerationModelsResponse {
    type V = ListImageGenerationModelsResponseView;

    open spec fn deep_view(&self) -> ListImageGenerationModelsResponseView {
        self@
    }
}

} // verus!
