//! Raw text sampling requests and responses.

use vstd::prelude::*;
use crate::proto;
use vstd::std_specs::convert::FromSpecImpl;
use crate::number::Float32;

verus! {

/// Request for raw text sampling.
#[derive(Clone, Debug)]
pub struct SampleRequest {
    /// Prompts to continue.
    pub prompts: Vec<String>,
    /// Model name or alias.
    pub model: String,
    /// Completions per prompt.
    pub n: Option<i32>,
    /// Upper bound on generated tokens.
    pub max_tokens: Option<i32>,
    /// Seed for repeatable sampling.
    pub seed: Option<i32>,
    /// Sequences that end generation.
    pub stop: Vec<String>,
    /// Sampling temperature.
    pub temperature: Option<Float32>,
    /// Nucleus sampling mass.
    pub top_p: Option<Float32>,
    /// Penalty on frequent tokens.
    pub frequency_penalty: Option<Float32>,
    /// Penalty on tokens already present.
    pub presence_penalty: Option<Float32>,
    /// Whether log probabilities are returned.
    pub logprobs: bool,
    /// Number of alternatives per token.
    pub top_logprobs: Option<i32>,
    /// End-user identifier.
    pub user: Option<String>,
}

/// What a [`SampleRequest`] holds, as mathematical values.
pub struct SampleRequestView {
    pub prompts: Seq<Seq<char>>,
    pub model: Seq<char>,
    pub n: Option<i32>,
    pub max_tokens: Option<i32>,
    pub seed: Option<i32>,
    pub stop: Seq<Seq<char>>,
    pub temperature: Option<Float32>,
    pub top_p: Option<Float32>,
    pub frequency_penalty: Option<Float32>,
    pub presence_penalty: Option<Float32>,
    pub logprobs: bool,
    pub top_logprobs: Option<i32>,
    pub user: Option<Seq<char>>,
}

impl View for SampleRequest {
    type V = SampleRequestView;

    open spec fn view(&self) -> SampleRequestView {
        SampleRequestView {
            prompts: self.prompts.deep_view(),
            model: self.model@,
            n: self.n,
            max_tokens: self.max_tokens,
            seed: self.seed,
            stop: self.stop.deep_view(),
            temperature: self.temperature,
            top_p: self.top_p,
            frequency_penalty: self.frequency_penalty,
            presence_penalty: self.presence_penalty,
            logprobs: self.logprobs,
            top_logprobs: self.top_logprobs,
            user: self.user.deep_view(),
        }
    }
}

impl DeepView for SampleRequest {
    type V = SampleRequestView;

    open spec fn deep_view(&self) -> SampleRequestView {
        self@
    }
}

/// Sampled completions.
#[derive(Clone, Debug)]
pub struct SampleResponse {
    /// Identifier of the request.
    pub id: String,
    /// Completions.
    pub choices: Vec<SampleChoice>,
    /// Model that answered.
    pub model: String,
    /// Tokens used in all.
    pub total_tokens: i32,
}

/// What a [`SampleResponse`] holds, as mathematical values.
pub struct SampleResponseView {
    pub id: Seq<char>,
    pub choices: Seq<SampleChoiceView>,
    pub model: Seq<char>,
    pub total_tokens: i32,
}

impl View for SampleResponse {
    type V = SampleResponseView;

    open spec fn view(&self) -> SampleResponseView {
        SampleResponseView {
            id: self.id@,
            choices: self.choices.deep_view(),
            model: self.model@,
            total_tokens: self.total_tokens,
        }
    }
}

impl DeepView for SampleResponse {
    type V = SampleResponseView;

    open spec fn deep_view(&self) -> SampleResponseView {
        self@
    }
}

/// One sampled completion.
#[derive(Clone, Debug)]
pub struct SampleChoice {
    /// Position among the completions.
    pub index: i32,
    /// Generated text.
    pub text: String,
    /// Why generation stopped, as a word.
    pub finish_reason: String,
}

/// What a [`SampleChoice`] holds, as mathematical values.
pub struct SampleChoiceView {
    pub index: i32,
    pub text: Seq<char>,
    pub finish_reason: Seq<char>,
}

impl View for SampleChoice {
    type V = SampleChoiceView;

    open spec fn view(&self) -> SampleChoiceView {
        SampleChoiceView {
            index: self.index,
            text: self.text@,
            finish_reason: self.finish_reason@,
        }
    }
}

impl DeepView for SampleChoice {
    type V = SampleChoiceView;

    open spec fn deep_view(&self) -> SampleChoiceView {
        self@
    }
}

impl SampleRequestView {
    /// A request for the given model with no prompt and nothing set.
    pub open spec fn for_model(model: Seq<char>) -> SampleRequestView {
        SampleRequestView {
            prompts: Seq::empty(),
            model: model,
            n: None,
            max_tokens: None,
            seed: None,
            stop: Seq::empty(),
            temperature: None,
            top_p: None,
            frequency_penalty: None,
            presence_penalty: None,
            logprobs: false,
            top_logprobs: None,
            user: None,
        }
    }

    /// The wire form of the request; an unset user goes out as the empty text.
    pub open spec fn wire(self) -> proto::SampleTextRequestView {
        proto::SampleTextRequestView {
            prompt: self.prompts,
            model: self.model,
            n: self.n,
            max_tokens: self.max_tokens,
            seed: self.seed,
            stop: self.stop,
            temperature: self.temperature,
            top_p: self.top_p,
            frequency_penalty: self.frequency_penalty,
            logprobs: self.logprobs,
            presence_penalty: self.presence_penalty,
            top_logprobs: self.top_logprobs,
            user: match self.user {
                Some(user) => user,
                None => Seq::empty(),
            },
        }
    }
}

impl SampleRequest {
    /// A request for the given model with no prompt and nothing set.
    pub fn new(model: &str) -> (request: Self)
        ensures
            request@ == SampleRequestView::for_model(model@),
    {
        let request = SampleRequest {
            prompts: Vec::new(),
            model: model.to_string(),
            n: None,
            max_tokens: None,
            seed: None,
            stop: Vec::new(),
            temperature: None,
            top_p: None,
            frequency_penalty: None,
            presence_penalty: None,
            logprobs: false,
            top_logprobs: None,
            user: None,
        };
        assert(request.prompts.deep_view() =~= Seq::empty());
        assert(request.stop.deep_view() =~= Seq::empty());
        request
    }

    /// Appends a prompt.
    pub fn add_prompt(self, prompt: &str) -> (request: Self)
        ensures
            request@ == (SampleRequestView { prompts: self@.prompts.push(prompt@), ..self@ }),
    {
        let mut request = self;
        request.prompts.push(prompt.to_string());
        assert(request.prompts.deep_view() =~= self.prompts.deep_view().push(prompt@));
        request
    }

    /// Sets the number of completions per prompt.
    pub fn with_n(self, n: i32) -> (request: Self)
        ensures
            request@ == (SampleRequestView { n: Some(n), ..self@ }),
    {
        let mut request = self;
        request.n = Some(n);
        request
    }

    /// Sets the upper bound on generated tokens.
    pub fn with_max_tokens(self, max_tokens: i32) -> (request: Self)
        ensures
            request@ == (SampleRequestView { max_tokens: Some(max_tokens), ..self@ }),
    {
        let mut request = self;
        request.max_tokens = Some(max_tokens);
        request
    }

    /// Sets the sampling temperature, as given.
    pub fn with_temperature(self, temperature: Float32) -> (request: Self)
        ensures
            request@ == (SampleRequestView { temperature: Some(temperature), ..self@ }),
    {
        let mut request = self;
        request.temperature = Some(temperature);
        request
    }
}

/// The word for the finish reason that a wire code stands for; "unknown"
/// for every code outside the table.
pub open spec fn finish_reason_word(code: i32) -> Seq<char> {
    match proto::FinishReason::from_code_spec(code) {
        Some(proto::FinishReason::ReasonStop) => "stop"@,
        Some(proto::FinishReason::ReasonMaxLen) => "length"@,
        Some(proto::FinishReason::ReasonMaxContext) => "max_context"@,
        Some(proto::FinishReason::ReasonToolCalls) => "tool_calls"@,
        Some(proto::FinishReason::ReasonTimeLimit) => "time_limit"@,
        _ => "unknown"@,
    }
}

impl SampleChoiceView {
    /// The completion that a wire message stands for, with its finish
    /// reason as a word.
    pub open spec fn from_wire(wire: proto::SampleChoiceView) -> SampleChoiceView {
        SampleChoiceView {
            index: wire.index,
            text: wire.text,
            finish_reason: finish_reason_word(wire.finish_reason),
        }
    }
}

impl From<proto::SampleChoice> for SampleChoice {
    /// Reads a completion from its wire message.
    fn from(proto: proto::SampleChoice) -> (choice: SampleChoice)
        ensures
            choice@ == SampleChoiceView::from_wire(proto@),
    {
        let finish_reason = match proto::FinishReason::from_code(proto.finish_reason) {
            Some(proto::FinishReason::ReasonStop) => "stop",
            Some(proto::FinishReason::ReasonMaxLen) => "length",
            Some(proto::FinishReason::ReasonMaxContext) => "max_context",
            Some(proto::FinishReason::ReasonToolCalls) => "tool_calls",
            Some(proto::FinishReason::ReasonTimeLimit) => "time_limit",
            _ => "unknown",
        };
        SampleChoice { index: proto.index, text: proto.text, finish_reason: finish_reason.to_string() }
    }
}

impl FromSpecImpl<proto::SampleChoice> for SampleChoice {
    open spec fn obeys_from_spec() -> bool {
        false
    }

    open spec fn from_spec(proto: proto::SampleChoice) -> SampleChoice {
        arbitrary()
    }
}

impl SampleResponseView {
    /// The response that a wire message stands for: the completions one for
    /// one and in the same order, and 0 tokens where no accounting is given.
    pub open spec fn from_wire(wire: proto::SampleTextResponseView) -> SampleResponseView {
        SampleResponseView {
            id: wire.id,
            choices: Seq::new(
                wire.choices.len(),
                |i: int| SampleChoiceView::from_wire(wire.choices[i]),
            ),
            model: wire.model,
            total_tokens: match wire.usage {
                Some(usage) => usage.total_tokens,
                None => 0,
            },
        }
    }
}

impl From<proto::SampleTextResponse> for SampleResponse {
    /// Reads a sampling response from its wire message.
    fn from(proto: proto::SampleTextResponse) -> (response: SampleResponse)
        ensures
            response@ == SampleResponseView::from_wire(proto@),
    {
        let total_tokens = match &proto.usage {
            Some(usage) => usage.total_tokens,
            None => 0,
        };
        let mut choices: Vec<SampleChoice> = Vec::new();
        let mut i: usize = 0;
        while i < proto.choices.len()
            invariant
                i <= proto.choices@.len(),
                choices@.len() == i,
                forall|j: int|
                    0 <= j < i ==> (#[trigger] choices@[j])@ == SampleChoiceView::from_wire(
                        proto.choices@[j]@,
                    ),
            decreases proto.choices@.len() - i,
        {
            let wire = &proto.choices[i];
            choices.push(
                SampleChoice::from(
                    proto::SampleChoice {
                        finish_reason: wire.finish_reason,
                        index: wire.index,
                        text: wire.text.clone(),
                    },
                ),
            );
            i += 1;
        }
        assert(choices.deep_view() =~= SampleResponseView::from_wire(proto@).choices);
        SampleResponse { id: proto.id, choices, model: proto.model, total_tokens }
    }
}

impl FromSpecImpl<proto::SampleTextResponse> for SampleResponse {
    open spec fn obeys_from_spec() -> bool {
        false
    }

    open spec fn from_spec(proto: proto::SampleTextResponse) -> SampleResponse {
        arbitrary()
    }
}

} // verus!
