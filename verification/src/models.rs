//! Descriptions of the models on offer.

use vstd::prelude::*;
use crate::proto;
use vstd::std_specs::convert::FromSpecImpl;

verus! {

/// Description of a language model.
///
/// Prices are fixed-point integers. Text, image and completion token prices
/// are in hundredths of a US cent per million tokens, the cached prompt token
/// price is in US cents per hundred million tokens, and the search price is in
/// hundredths of a US cent per million searches.
#[derive(Clone, Debug)]
pub struct LanguageModel {
    /// Model name, as used in requests.
    pub name: String,
    /// Other names of the model.
    pub aliases: Vec<String>,
    /// Version of the model.
    pub version: String,
    /// Kinds of input the model accepts.
    pub input_modalities: Vec<Modality>,
    /// Kinds of output the model produces.
    pub output_modalities: Vec<Modality>,
    /// Price of prompt text tokens.
    pub prompt_text_token_price: i64,
    /// Price of prompt image tokens.
    pub prompt_image_token_price: i64,
    /// Price of cached prompt tokens.
    pub cached_prompt_token_price: i64,
    /// Price of completion tokens.
    pub completion_text_token_price: i64,
    /// Price of searches.
    pub search_price: i64,
    /// Context length in tokens.
    pub max_prompt_length: i32,
    /// Backend fingerprint.
    pub system_fingerprint: String,
}

/// What a [`LanguageModel`] holds, as mathematical values.
pub struct LanguageModelView {
    pub name: Seq<char>,
    pub aliases: Seq<Seq<char>>,
    pub version: Seq<char>,
    pub input_modalities: Seq<Modality>,
    pub output_modalities: Seq<Modality>,
    pub prompt_text_token_price: i64,
    pub prompt_image_token_price: i64,
    pub cached_prompt_token_price: i64,
    pub completion_text_token_price: i64,
    pub search_price: i64,
    pub max_prompt_length: i32,
    pub system_fingerprint: Seq<char>,
}

impl View for LanguageModel {
    type V = LanguageModelView;

    open spec fn view(&self) -> LanguageModelView {
        LanguageModelView {
            name: self.name@,
            aliases: self.aliases.deep_view(),
            version: self.version@,
            input_modalities: self.input_modalities@,
            output_modalities: self.output_modalities@,
            prompt_text_token_price: self.prompt_text_token_price,
            prompt_image_token_price: self.prompt_image_token_price,
            cached_prompt_token_price: self.cached_prompt_token_price,
            completion_text_token_price: self.completion_text_token_price,
            search_price: self.search_price,
            max_prompt_length: self.max_prompt_length,
            system_fingerprint: self.system_fingerprint@,
        }
    }
}

impl DeepView for LanguageModel {
    type V = LanguageModelView;

    open spec fn deep_view(&self) -> LanguageModelView {
        self@
    }
}

/// Kind of data a model reads or writes.
#[derive(Clone, Copy, Debug, PartialEq, Eq, Structural)]
pub enum Modality {
    /// Text.
    Text,
    /// Images.
    Image,
    /// Embedding vectors.
    Embedding,
    /// A kind this library does not know.
    Unknown,
}

/// Description of an embedding model.
///
/// Prices are in hundredths of a US cent per million tokens.
#[derive(Clone, Debug)]
pub struct EmbeddingModel {
    /// Model name, as used in requests.
    pub name: String,
    /// Other names of the model.
    pub aliases: Vec<String>,
    /// Version of the model.
    pub version: String,
    /// Kinds of input the model accepts.
    pub input_modalities: Vec<Modality>,
    /// Kinds of output the model produces.
    pub output_modalities: Vec<Modality>,
    /// Price of prompt text tokens.
    pub prompt_text_token_price: i64,
    /// Price of prompt image tokens.
    pub prompt_image_token_price: i64,
    /// Backend fingerprint.
    pub system_fingerprint: String,
}

/// What a [`EmbeddingModel`] holds, as mathematical values.
pub struct EmbeddingModelView {
    pub name: Seq<char>,
    pub aliases: Seq<Seq<char>>,
    pub version: Seq<char>,
    pub input_modalities: Seq<Modality>,
    pub output_modalities: Seq<Modality>,
    pub prompt_text_token_price: i64,
    pub prompt_image_token_price: i64,
    pub system_fingerprint: Seq<char>,
}

impl View for EmbeddingModel {
    type V = EmbeddingModelView;

    open spec fn view(&self) -> EmbeddingModelView {
        EmbeddingModelView {
            name: self.name@,
            aliases: self.aliases.deep_view(),
            version: self.version@,
            input_modalities: self.input_modalities@,
            output_modalities: self.output_modalities@,
            prompt_text_token_price: self.prompt_text_token_price,
            prompt_image_token_price: self.prompt_image_token_price,
            system_fingerprint: self.system_fingerprint@,
        }
    }
}

impl DeepView for EmbeddingModel {
    type V = EmbeddingModelView;

    open spec fn deep_view(&self) -> EmbeddingModelView {
        self@
    }
}

/// Description of an image generation model.
///
/// The price is in US cents per image.
#[derive(Clone, Debug)]
pub struct ImageGenerationModel {
    /// Model name, as used in requests.
    pub name: String,
    /// Other names of the model.
    pub aliases: Vec<String>,
    /// Version of the model.
    pub version: String,
    /// Kinds of input the model accepts.
    pub input_modalities: Vec<Modality>,
    /// Kinds of output the model produces.
    pub output_modalities: Vec<Modality>,
    /// Price per image.
    pub image_price: i64,
    /// Prompt length in tokens.
    pub max_prompt_length: i32,
    /// Backend fingerprint.
    pub system_fingerprint: String,
}

/// What a [`ImageGenerationModel`] holds, as mathematical values.
pub struct ImageGenerationModelView {
    pub name: Seq<char>,
    pub aliases: Seq<Seq<char>>,
    pub version: Seq<char>,
    pub input_modalities: Seq<Modality>,
    pub output_modalities: Seq<Modality>,
    pub image_price: i64,
    pub max_prompt_length: i32,
    pub system_fingerprint: Seq<char>,
}

impl View for ImageGenerationModel {
    type V = ImageGenerationModelView;

    open spec fn view(&self) -> ImageGenerationModelView {
        ImageGenerationModelView {
            name: self.name@,
            aliases: self.aliases.deep_view(),
            version: self.version@,
            input_modalities: self.input_modalities@,
            output_modalities: self.output_modalities@,
            image_price: self.image_price,
            max_prompt_length: self.max_prompt_length,
            system_fingerprint: self.system_fingerprint@,
        }
    }
}

impl DeepView for ImageGenerationModel {
    type V = ImageGenerationModelView;

    open spec fn deep_view(&self) -> ImageGenerationModelView {
        self@
    }
}

impl Modality {
    /// The modality that a wire value stands for; the invalid value counts
    /// as text.
    pub open spec fn from_wire(wire: proto::Modality) -> Modality {
        match wire {
            proto::Modality::Text => Modality::Text,
            proto::Modality::Image => Modality::Image,
            proto::Modality::Embedding => Modality::Embedding,
            proto::Modality::InvalidModality => Modality::Text,
        }
    }

    /// The modality that a wire code stands for; a code that stands for no
    /// wire value stands for `Unknown`.
    pub open spec fn from_code(code: i32) -> Modality {
        match proto::Modality::from_code_spec(code) {
            Some(wire) => Self::from_wire(wire),
            None => Modality::Unknown,
        }
    }

    /// The modalities that a list of wire codes stands for, one for one and
    /// in the same order.
    pub open spec fn all_from_codes(codes: Seq<i32>) -> Seq<Modality> {
        Seq::new(codes.len(), |i: int| Self::from_code(codes[i]))
    }
}

impl From<proto::Modality> for Modality {
    /// Decodes a modality from its wire value.
    fn from(proto: proto::Modality) -> (modality: Modality)
        ensures
            modality == Modality::from_wire(proto),
    {
        match proto {
            proto::Modality::Text => Modality::Text,
            proto::Modality::Image => Modality::Image,
            proto::Modality::Embedding => Modality::Embedding,
            proto::Modality::InvalidModality => Modality::Text,
        }
    }
}

impl FromSpecImpl<proto::Modality> for Modality {
    open spec fn obeys_from_spec() -> bool {
        true
    }

    open spec fn from_spec(proto: proto::Modality) -> Modality {
        Modality::from_wire(proto)
    }
}

/// Decodes a modality from its wire code. Total: a code that stands for no
/// wire value decodes to `Unknown`.
pub fn modality_from_code(code: i32) -> (modality: Modality)
    ensures
        modality == Modality::from_code(code),
{
    match proto::Modality::from_code(code) {
        Some(wire) => Modality::from(wire),
        None => Modality::Unknown,
    }
}

/// Decodes a list of modality codes, one for one and in the same order.
pub fn modalities_from_codes(codes: &Vec<i32>) -> (modalities: Vec<Modality>)
    ensures
        modalities@ == Modality::all_from_codes(codes@),
{
    let mut modalities: Vec<Modality> = Vec::new();
    let mut i: usize = 0;
    while i < codes.len()
        invariant
            i <= codes@.len(),
            modalities@.len() == i,
            forall|j: int| 0 <= j < i ==> #[trigger] modalities@[j] == Modality::from_code(codes@[j]),
        decreases codes@.len() - i,
    {
        modalities.push(modality_from_code(codes[i]));
        i += 1;
    }
    assert(modalities@ =~= Modality::all_from_codes(codes@));
    modalities
}

/// A modality code outside the table decodes to `Unknown`, and only such a
/// code does.
pub proof fn lemma_unknown_modality_codes_decode(code: i32)
    ensures
        code < 0 || code > 3 ==> Modality::from_code(code) == Modality::Unknown,
        0 <= code <= 3 ==> Modality::from_code(code) != Modality::Unknown,
{
}

/// Whether a list of modalities holds the given one.
pub fn has_modality(modalities: &Vec<Modality>, wanted: Modality) -> (found: bool)
    ensures
        found == modalities@.contains(wanted),
{
    let mut i: usize = 0;
    while i < modalities.len()
        invariant
            i <= modalities@.len(),
            forall|j: int| 0 <= j < i ==> modalities@[j] != wanted,
        decreases modalities@.len() - i,
    {
        if modalities[i] == wanted {
            return true;
        }
        i += 1;
    }
    false
}

/// The price of a number of units at a price per unit, exactly.
fn price_of(count: u32, price: i64) -> (total: i128)
    ensures
        total == count * price,
        -0x8000_0000_0000_0000_0000_0000 <= total <= 0x8000_0000_0000_0000_0000_0000,
{
    assert(-0x8000_0000_0000_0000_0000_0000 <= count * price <= 0x8000_0000_0000_0000_0000_0000)
        by (nonlinear_arith)
        requires
            0 <= count <= 0xffff_ffff,
            -0x8000_0000_0000_0000 <= price <= 0x7fff_ffff_ffff_ffff,
    ;
    (count as i128) * (price as i128)
}

impl LanguageModelView {
    /// A model is multimodal when it reads both text and images.
    pub open spec fn supports_multimodal(self) -> bool {
        self.input_modalities.contains(Modality::Text) && self.input_modalities.contains(
            Modality::Image,
        )
    }

    /// The cost of a request in hundred-millionths of a US dollar.
    ///
    /// A price of prompt or completion tokens is in hundredths of a cent per
    /// million tokens, that is in hundred-millionths of a dollar per token;
    /// the price of cached tokens is in cents per hundred million tokens,
    /// which is the same unit. So the cost is the sum of the three products.
    pub open spec fn cost_units(self, prompt_tokens: u32, completion_tokens: u32, cached_tokens: u32) -> int {
        prompt_tokens * self.prompt_text_token_price + cached_tokens
            * self.cached_prompt_token_price + completion_tokens * self.completion_text_token_price
    }

    /// The model that a wire message stands for.
    pub open spec fn from_wire(wire: proto::LanguageModelView) -> LanguageModelView {
        LanguageModelView {
            name: wire.name,
            aliases: wire.aliases,
            version: wire.version,
            input_modalities: Modality::all_from_codes(wire.input_modalities),
            output_modalities: Modality::all_from_codes(wire.output_modalities),
            prompt_text_token_price: wire.prompt_text_token_price,
            prompt_image_token_price: wire.prompt_image_token_price,
            cached_prompt_token_price: wire.cached_prompt_token_price,
            completion_text_token_price: wire.completion_text_token_price,
            search_price: wire.search_price,
            max_prompt_length: wire.max_prompt_length,
            system_fingerprint: wire.system_fingerprint,
        }
    }
}

impl LanguageModel {
    /// Whether the model reads both text and images.
    pub fn supports_multimodal(&self) -> (multimodal: bool)
        ensures
            multimodal == self@.supports_multimodal(),
    {
        has_modality(&self.input_modalities, Modality::Text) && has_modality(
            &self.input_modalities,
            Modality::Image,
        )
    }

    /// The cost of a request in hundred-millionths of a US dollar, exactly.
    pub fn cost_units(&self, prompt_tokens: u32, completion_tokens: u32, cached_tokens: u32) -> (units:
        i128)
        ensures
            units == self@.cost_units(prompt_tokens, completion_tokens, cached_tokens),
    {
        let prompt = price_of(prompt_tokens, self.prompt_text_token_price);
        let cached = price_of(cached_tokens, self.cached_prompt_token_price);
        let completion = price_of(completion_tokens, self.completion_text_token_price);
        prompt + cached + completion
    }
}

impl From<proto::LanguageModel> for LanguageModel {
    /// Reads a model description from its wire message.
    fn from(proto: proto::LanguageModel) -> (model: LanguageModel)
        ensures
            model@ == LanguageModelView::from_wire(proto@),
    {
        LanguageModel {
            input_modalities: modalities_from_codes(&proto.input_modalities),
            output_modalities: modalities_from_codes(&proto.output_modalities),
            name: proto.name,
            aliases: proto.aliases,
            version: proto.version,
            prompt_text_token_price: proto.prompt_text_token_price,
            prompt_image_token_price: proto.prompt_image_token_price,
            cached_prompt_token_price: proto.cached_prompt_token_price,
            completion_text_token_price: proto.completion_text_token_price,
            search_price: proto.search_price,
            max_prompt_length: proto.max_prompt_length,
            system_fingerprint: proto.system_fingerprint,
        }
    }
}

impl FromSpecImpl<proto::LanguageModel> for LanguageModel {
    open spec fn obeys_from_spec() -> bool {
        false
    }

    open spec fn from_spec(proto: proto::LanguageModel) -> LanguageModel {
        arbitrary()
    }
}

impl EmbeddingModelView {
    /// The model that a wire message stands for.
    pub open spec fn from_wire(wire: proto::EmbeddingModelView) -> EmbeddingModelView {
        EmbeddingModelView {
            name: wire.name,
            aliases: wire.aliases,
            version: wire.version,
            input_modalities: Modality::all_from_codes(wire.input_modalities),
            output_modalities: Modality::all_from_codes(wire.output_modalities),
            prompt_text_token_price: wire.prompt_text_token_price,
            prompt_image_token_price: wire.prompt_image_token_price,
            system_fingerprint: wire.system_fingerprint,
        }
    }
}

impl From<proto::EmbeddingModel> for EmbeddingModel {
    /// Reads a model description from its wire message.
    fn from(proto: proto::EmbeddingModel) -> (model: EmbeddingModel)
        ensures
            model@ == EmbeddingModelView::from_wire(proto@),
    {
        EmbeddingModel {
            input_modalities: modalities_from_codes(&proto.input_modalities),
            output_modalities: modalities_from_codes(&proto.output_modalities),
            name: proto.name,
            aliases: proto.aliases,
            version: proto.version,
            prompt_text_token_price: proto.prompt_text_token_price,
            prompt_image_token_price: proto.prompt_image_token_price,
            system_fingerprint: proto.system_fingerprint,
        }
    }
}

impl FromSpecImpl<proto::EmbeddingModel> for EmbeddingModel {
    open spec fn obeys_from_spec() -> bool {
        false
    }

    open spec fn from_spec(proto: proto::EmbeddingModel) -> EmbeddingModel {
        arbitrary()
    }
}

impl ImageGenerationModelView {
    /// The model that a wire message stands for.
    pub open spec fn from_wire(wire: proto::ImageGenerationModelView) -> ImageGenerationModelView {
        ImageGenerationModelView {
            name: wire.name,
            aliases: wire.aliases,
            version: wire.version,
            input_modalities: Modality::all_from_codes(wire.input_modalities),
            output_modalities: Modality::all_from_codes(wire.output_modalities),
            image_price: wire.image_price,
            max_prompt_length: wire.max_prompt_length,
            system_fingerprint: wire.system_fingerprint,
        }
    }
}

impl From<proto::ImageGenerationModel> for ImageGenerationModel {
    /// Reads a model description from its wire message.
    fn from(proto: proto::ImageGenerationModel) -> (model: ImageGenerationModel)
        ensures
            model@ == ImageGenerationModelView::from_wire(proto@),
    {
        ImageGenerationModel {
            input_modalities: modalities_from_codes(&proto.input_modalities),
            output_modalities: modalities_from_codes(&proto.output_modalities),
            name: proto.name,
            aliases: proto.aliases,
            version: proto.version,
            image_price: proto.image_price,
            max_prompt_length: proto.max_prompt_length,
            system_fingerprint: proto.system_fingerprint,
        }
    }
}

impl FromSpecImpl<proto::ImageGenerationModel> for ImageGenerationModel {
    open spec fn obeys_from_spec() -> bool {
        false
    }

    open spec fn from_spec(proto: proto::ImageGenerationModel) -> ImageGenerationModel {
        arbitrary()
    }
}

} // verus!
