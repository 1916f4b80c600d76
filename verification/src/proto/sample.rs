//! Messages of the raw sampling service.

use vstd::prelude::*;
use super::{SamplingUsage, SamplingUsageView};
use crate::number::Float32;

verus! {

/// Request for raw text sampling.
#[derive(Clone, Debug)]
pub struct SampleTextRequest {
    /// Prompts to continue.
    pub prompt: Vec<String>,
    /// Model name or alias.
    pub model: String,
    /// Completions per prompt.
    pub n: Option<i32>,
    /// Upper bound on generated tokens.
    pub max_tokens: Option<i32>,
    /// Seed for repeatable sampling.
    pub seed: Option<i32>,
    /// Sequences that end generation.
    pub stop: Vec<String>,
    /// Sampling temperature.
    pub temperature: Option<Float32>,
    /// Nucleus sampling mass.
    pub top_p: Option<Float32>,
    /// Penalty on frequent tokens.
    pub frequency_penalty: Option<Float32>,
    /// Whether log probabilities are returned.
    pub logprobs: bool,
    /// Penalty on tokens already present.
    pub presence_penalty: Option<Float32>,
    /// Number of alternatives per token.
    pub top_logprobs: Option<i32>,
    /// End-user identifier; empty when unset.
    pub user: String,
}

/// What a [`SampleTextRequest`] holds, as mathematical values.
pub struct SampleTextRequestView {
    pub prompt: Seq<Seq<char>>,
    pub model: Seq<char>,
    pub n: Option<i32>,
    pub max_tokens: Option<i32>,
    pub seed: Option<i32>,
    pub stop: Seq<Seq<char>>,
    pub temperature: Option<Float32>,
    pub top_p: Option<Float32>,
    pub frequency_penalty: Option<Float32>,
    pub logprobs: bool,
    pub presence_penalty: Option<Float32>,
    pub top_logprobs: Option<i32>,
    pub user: Seq<char>,
}

impl View for SampleTextRequest {
    type V = SampleTextRequestView;

    open spec fn view(&self) -> SampleTextRequestView {
        SampleTextRequestView {
            prompt: self.prompt.deep_view(),
            model: self.model@,
            n: self.n,
            max_tokens: self.max_tokens,
            seed: self.seed,
            stop: self.stop.deep_view(),
            temperature: self.temperature,
            top_p: self.top_p,
            frequency_penalty: self.frequency_penalty,
            logprobs: self.logprobs,
            presence_penalty: self.presence_penalty,
            top_logprobs: self.top_logprobs,
            user: self.user@,
        }
    }
}

impl DeepView for SampleTextRequest {
    type V = SampleTextRequestView;

    open spec fn deep_view(&self) -> SampleTextRequestView {
        self@
    }
}

/// Sampled completions.
#[derive(Clone, Debug)]
pub struct SampleTextResponse {
    /// Identifier of the request.
    pub id: String,
    /// Completions.
    pub choices: Vec<SampleChoice>,
    /// Time of creation.
    pub created: Option<prost_types::Timestamp>,
    /// Model that answered.
    pub model: String,
    /// Backend fingerprint.
    pub system_fingerprint: String,
    /// Token accounting.
    pub usage: Option<SamplingUsage>,
}

/// What a [`SampleTextResponse`] holds, as mathematical values.
pub struct SampleTextResponseView {
    pub id: Seq<char>,
    pub choices: Seq<SampleChoiceView>,
    pub created: Option<prost_types::Timestamp>,
    pub model: Seq<char>,
    pub system_fingerprint: Seq<char>,
    pub usage: Option<SamplingUsageView>,
}

impl View for SampleTextResponse {
    type V = SampleTextResponseView;

    open spec fn view(&self) -> SampleTextResponseView {
        SampleTextResponseView {
            id: self.id@,
            choices: self.choices.deep_view(),
            created: self.created,
            model: self.model@,
            system_fingerprint: self.system_fingerprint@,
            usage: self.usage.deep_view(),
        }
    }
}

impl DeepView for SampleTextResponse {
    type V = SampleTextResponseView;

    open spec fn deep_view(&self) -> SampleTextResponseView {
        self@
    }
}

/// One sampled completion.
#[derive(Clone, Debug)]
pub struct SampleChoice {
    /// Code of the reason generation stopped.
    pub finish_reason: i32,
    /// Position among the completions.
    pub index: i32,
    /// Generated text.
    pub text: String,
}

/// What a [`SampleChoice`] holds, as mathematical values.
pub struct SampleChoiceView {
    pub finish_reason: i32,
    pub index: i32,
    pub text: Seq<char>,
}

impl View for SampleChoice {
    type V = SampleChoiceView;

    open spec fn view(&self) -> SampleChoiceView {
        SampleChoiceView {
            finish_reason: self.finish_reason,
            index: self.index,
            text: self.text@,
        }
    }
}

impl DeepView for SampleChoice {
    type V = SampleChoiceView;

    open spec fn deep_view(&self) -> SampleChoiceView {
        self@
    }
}

} // verus!
