//! What each operation of the client computes before it sends and after it
//! receives: the wire request of an operation, and what the wire reply
//! stands for.

use vstd::prelude::*;
use std::time::Duration;
use crate::client::conversions::proto_to_response;
use crate::copying::{copy_bytes, copy_strings};
use crate::documents::DocumentSearchRequest;
use crate::error::{GrokError, GrokErrorView};
use crate::image::ImageGenerationRequest;
use crate::models::{
    modalities_from_codes, EmbeddingModel, EmbeddingModelView, ImageGenerationModel,
    ImageGenerationModelView, LanguageModel, LanguageModelView,
};
use crate::proto;
use crate::proto::DeferredStatus;
use crate::response::{ChatResponse, ChatResponseView};
use crate::sample::SampleRequest;
use crate::timing::duration_nanos;
use crate::tokenize::{Token, TokenView, TokenizeRequest, TokenizeResponse, TokenizeResponseView};

verus! {

/// The text of an optional setting that the wire writes as a text: the empty
/// text where the setting is unset.
fn text_or_empty(value: Option<String>) -> (text: String)
    ensures
        text@ == match value.deep_view() {
            Some(text) => text,
            None => Seq::empty(),
        },
{
    match value {
        Some(text) => text,
        None => String::new(),
    }
}

/// Converts a tokenizer request to its wire form.
pub fn tokenize_request_to_proto(request: TokenizeRequest) -> (wire: proto::TokenizeTextRequest)
    ensures
        wire@ == request@.wire(),
{
    proto::TokenizeTextRequest {
        text: request.text,
        model: request.model,
        user: text_or_empty(request.user),
    }
}

/// Reads a tokenizer response from its wire message.
pub fn proto_to_tokenize_response(response: proto::TokenizeTextResponse) -> (decoded:
    TokenizeResponse)
    ensures
        decoded@ == TokenizeResponseView::from_wire(response@),
{
    let mut tokens: Vec<Token> = Vec::new();
    let mut i: usize = 0;
    while i < response.tokens.len()
        invariant
            i <= response.tokens@.len(),
            tokens@.len() == i,
            forall|j: int|
                0 <= j < i ==> (#[trigger] tokens@[j])@ == TokenView::from_wire(
                    response.tokens@[j]@,
                ),
        decreases response.tokens@.len() - i,
    {
        let wire = &response.tokens[i];
        tokens.push(
            Token {
                token_id: wire.token_id,
                string_token: wire.string_token.clone(),
                token_bytes: copy_bytes(&wire.token_bytes),
            },
        );
        i += 1;
    }
    assert(tokens.deep_view() =~= TokenizeResponseView::from_wire(response@).tokens);
    TokenizeResponse { tokens, model: response.model }
}

/// Converts a sampling request to its wire form.
pub fn sample_request_to_proto(request: SampleRequest) -> (wire: proto::SampleTextRequest)
    ensures
        wire@ == request@.wire(),
{
    proto::SampleTextRequest {
        prompt: request.prompts,
        model: request.model,
        n: request.n,
        max_tokens: request.max_tokens,
        seed: request.seed,
        stop: request.stop,
        temperature: request.temperature,
        top_p: request.top_p,
        frequency_penalty: request.frequency_penalty,
        logprobs: request.logprobs,
        presence_penalty: request.presence_penalty,
        top_logprobs: request.top_logprobs,
        user: text_or_empty(request.user),
    }
}

/// Converts an image generation request to its wire form.
pub fn image_request_to_proto(request: ImageGenerationRequest) -> (wire:
    proto::GenerateImageRequest)
    ensures
        wire@ == request@.wire(),
{
    let image = match request.image_url {
        Some(url) => Some(
            proto::ImageUrlContent {
                image_url: url,
                detail: proto::ImageDetail::DetailAuto.code(),
            },
        ),
        None => None,
    };
    proto::GenerateImageRequest {
        prompt: request.prompt,
        image,
        model: request.model,
        n: request.n,
        user: text_or_empty(request.user),
        format: request.format.to_code(),
    }
}

/// Converts a document search request to its wire form.
pub fn search_request_to_proto(request: DocumentSearchRequest) -> (wire: proto::SearchRequest)
    ensures
        wire@ == request@.wire(),
{
    proto::SearchRequest {
        query: request.query,
        source: Some(proto::DocumentsSource { collection_ids: request.collection_ids }),
        limit: request.limit,
        ranking_metric: Some(request.ranking_metric.to_code()),
        instructions: request.instructions,
    }
}

/// The models that a list of wire messages stands for, one for one and in
/// the same order.
pub open spec fn language_models_from_wire(wire: Seq<proto::LanguageModelView>) -> Seq<
    LanguageModelView,
> {
    Seq::new(wire.len(), |i: int| LanguageModelView::from_wire(wire[i]))
}

/// Reads the language models of a listing.
pub fn language_models_from_proto(response: &proto::ListLanguageModelsResponse) -> (models: Vec<
    LanguageModel,
>)
    ensures
        models.deep_view() == language_models_from_wire(response@.models),
{
    let mut models: Vec<LanguageModel> = Vec::new();
    let mut i: usize = 0;
    while i < response.models.len()
        invariant
            i <= response.models@.len(),
            models@.len() == i,
            forall|j: int|
                0 <= j < i ==> (#[trigger] models@[j])@ == LanguageModelView::from_wire(
                    response.models@[j]@,
                ),
        decreases response.models@.len() - i,
    {
        let wire = &response.models[i];
        models.push(
            LanguageModel {
                name: wire.name.clone(),
                aliases: copy_strings(&wire.aliases),
                version: wire.version.clone(),
                input_modalities: modalities_from_codes(&wire.input_modalities),
                output_modalities: modalities_from_codes(&wire.output_modalities),
                prompt_text_token_price: wire.prompt_text_token_price,
                prompt_image_token_price: wire.prompt_image_token_price,
                cached_prompt_token_price: wire.cached_prompt_token_price,
                completion_text_token_price: wire.completion_text_token_price,
                search_price: wire.search_price,
                max_prompt_length: wire.max_prompt_length,
                system_fingerprint: wire.system_fingerprint.clone(),
            },
        );
        i += 1;
    }
    assert(models.deep_view() =~= language_models_from_wire(response@.models));
    models
}

/// The models that a list of wire messages stands for, one for one and in
/// the same order.
pub open spec fn embedding_models_from_wire(wire: Seq<proto::EmbeddingModelView>) -> Seq<
    EmbeddingModelView,
> {
    Seq::new(wire.len(), |i: int| EmbeddingModelView::from_wire(wire[i]))
}

/// Reads the embedding models of a listing.
pub fn embedding_models_from_proto(response: &proto::ListEmbeddingModelsResponse) -> (models: Vec<
    EmbeddingModel,
>)
    ensures
        models.deep_view() == embedding_models_from_wire(response@.models),
{
    let mut models: Vec<EmbeddingModel> = Vec::new();
    let mut i: usize = 0;
    while i < response.models.len()
        invariant
            i <= response.models@.len(),
            models@.len() == i,
            forall|j: int|
                0 <= j < i ==> (#[trigger] models@[j])@ == EmbeddingModelView::from_wire(
                    response.models@[j]@,
                ),
        decreases response.models@.len() - i,
    {
        let wire = &response.models[i];
        models.push(
            EmbeddingModel {
                name: wire.name.clone(),
                aliases: copy_strings(&wire.aliases),
                version: wire.version.clone(),
                input_modalities: modalities_from_codes(&wire.input_modalities),
                output_modalities: modalities_from_codes(&wire.output_modalities),
                prompt_text_token_price: wire.prompt_text_token_price,
                prompt_image_token_price: wire.prompt_image_token_price,
                system_fingerprint: wire.system_fingerprint.clone(),
            },
        );
        i += 1;
    }
    assert(models.deep_view() =~= embedding_models_from_wire(response@.models));
    models
}

/// The models that a list of wire messages stands for, one for one and in
/// the same order.
pub open spec fn image_models_from_wire(wire: Seq<proto::ImageGenerationModelView>) -> Seq<
    ImageGenerationModelView,
> {
    Seq::new(wire.len(), |i: int| ImageGenerationModelView::from_wire(wire[i]))
}

/// Reads the image generation models of a listing.
pub fn image_models_from_proto(response: &proto::ListImageGenerationModelsResponse) -> (models:
    Vec<ImageGenerationModel>)
    ensures
        models.deep_view() == image_models_from_wire(response@.models),
{
    let mut models: Vec<ImageGenerationModel> = Vec::new();
    let mut i: usize = 0;
    while i < response.models.len()
        invariant
            i <= response.models@.len(),
            models@.len() == i,
            forall|j: int|
                0 <= j < i ==> (#[trigger] models@[j])@ == ImageGenerationModelView::from_wire(
                    response.models@[j]@,
                ),
        decreases response.models@.len() - i,
    {
        let wire = &response.models[i];
        models.push(
            ImageGenerationModel {
                name: wire.name.clone(),
                aliases: copy_strings(&wire.aliases),
                version: wire.version.clone(),
                input_modalities: modalities_from_codes(&wire.input_modalities),
                output_modalities: modalities_from_codes(&wire.output_modalities),
                image_price: wire.image_price,
                max_prompt_length: wire.max_prompt_length,
                system_fingerprint: wire.system_fingerprint.clone(),
            },
        );
        i += 1;
    }
    assert(models.deep_view() =~= image_models_from_wire(response@.models));
    models
}

/// The state that a wire code of a deferred completion stands for; a code
/// that stands for no state counts as the invalid state.
pub open spec fn deferred_status_of(code: i32) -> DeferredStatus {
    match DeferredStatus::from_code_spec(code) {
        Some(status) => status,
        None => DeferredStatus::InvalidDeferredStatus,
    }
}

/// What a poll of a deferred completion found: the response when the
/// completion is done, nothing yet while it is pending, or the reason why
/// there will never be a response.
///
/// A completion that is marked done but comes without a response breaks the
/// protocol; an expired completion and an invalid state are final.
pub open spec fn deferred_reply(wire: proto::GetDeferredCompletionResponseView) -> Result<
    Option<ChatResponseView>,
    GrokErrorView,
> {
    match deferred_status_of(wire.status) {
        DeferredStatus::Done => match wire.response {
            Some(response) => match ChatResponseView::from_wire(response) {
                Ok(response) => Ok(Some(response)),
                Err(error) => Err(error),
            },
            None => Err(
                GrokErrorView::InvalidRequest("Deferred request marked as done but no response"@),
            ),
        },
        DeferredStatus::Pending => Ok(None),
        DeferredStatus::Expired => Err(GrokErrorView::InvalidRequest("Deferred request has expired"@)),
        DeferredStatus::InvalidDeferredStatus => Err(
            GrokErrorView::InvalidRequest("Invalid deferred status"@),
        ),
    }
}

/// The view of what a poll found.
pub open spec fn reply_view(reply: Result<Option<ChatResponse>, GrokError>) -> Result<
    Option<ChatResponseView>,
    GrokErrorView,
> {
    match reply {
        Ok(Some(response)) => Ok(Some(response@)),
        Ok(None) => Ok(None),
        Err(error) => Err(error@),
    }
}

/// Reads the reply to a poll of a deferred completion.
pub fn poll_deferred_reply(response: proto::GetDeferredCompletionResponse) -> (reply: Result<
    Option<ChatResponse>,
    GrokError,
>)
    ensures
        reply_view(reply) == deferred_reply(response@),
{
    let status = match DeferredStatus::from_code(response.status) {
        Some(status) => status,
        None => DeferredStatus::InvalidDeferredStatus,
    };
    match status {
        DeferredStatus::Done => match response.response {
            Some(completion) => match proto_to_response(completion) {
                Ok(completion) => Ok(Some(completion)),
                Err(error) => Err(error),
            },
            None => Err(
                GrokError::InvalidRequest(
                    "Deferred request marked as done but no response".to_string(),
                ),
            ),
        },
        DeferredStatus::Pending => Ok(None),
        DeferredStatus::Expired => Err(
            GrokError::InvalidRequest("Deferred request has expired".to_string()),
        ),
        DeferredStatus::InvalidDeferredStatus => Err(
            GrokError::InvalidRequest("Invalid deferred status".to_string()),
        ),
    }
}

/// The rules of waiting for a deferred completion.
///
/// The wait is a loop of rounds. Each round first reads the time that has
/// passed since the wait began, on a monotonic clock: past the timeout the
/// wait fails, and nothing more is polled. Otherwise the round polls once;
/// a response or an error ends the wait, and a pending completion makes the
/// caller sleep for the polling interval and start the next round.
///
/// The decisions are here; the caller has the clock, the polls and the sleep.
#[derive(Clone, Copy, Debug)]
pub struct DeferredWait {
    /// Time between two polls.
    pub poll_interval: Duration,
    /// Time after which the wait is given up.
    pub timeout: Duration,
}

/// What the caller does after a poll.
#[derive(Debug)]
pub enum WaitStep {
    /// The completion is there: the wait ends with it.
    Done(ChatResponse),
    /// The wait ends with an error.
    Failed(GrokError),
    /// The completion is pending: sleep for the given time, then start the
    /// next round.
    Sleep(Duration),
}

/// What a [`WaitStep`] holds, as mathematical values.
pub enum WaitStepView {
    Done(ChatResponseView),
    Failed(GrokErrorView),
    Sleep(Duration),
}

impl View for WaitStep {
    type V = WaitStepView;

    open spec fn view(&self) -> WaitStepView {
        match self {
            WaitStep::Done(response) => WaitStepView::Done(response@),
            WaitStep::Failed(error) => WaitStepView::Failed(error@),
            WaitStep::Sleep(span) => WaitStepView::Sleep(*span),
        }
    }
}

/// The error of a wait that ran out of time.
pub open spec fn timed_out() -> GrokErrorView {
    GrokErrorView::InvalidRequest("Deferred request timed out"@)
}

impl DeferredWait {
    /// Whether a round that begins when `elapsed` has passed is past the
    /// timeout. The timeout itself is still in time.
    pub open spec fn expired_at(self, elapsed: Duration) -> bool {
        duration_nanos(elapsed) > duration_nanos(self.timeout)
    }

    /// What follows a poll that found `reply`.
    pub open spec fn step_after(
        self,
        reply: Result<Option<ChatResponseView>, GrokErrorView>,
    ) -> WaitStepView {
        match reply {
            Ok(Some(response)) => WaitStepView::Done(response),
            Ok(None) => WaitStepView::Sleep(self.poll_interval),
            Err(error) => WaitStepView::Failed(error),
        }
    }

    /// The rules for the given polling interval and timeout.
    pub fn new(poll_interval: Duration, timeout: Duration) -> (wait: DeferredWait)
        ensures
            wait.poll_interval == poll_interval,
            wait.timeout == timeout,
    {
        DeferredWait { poll_interval, timeout }
    }

    /// Begins a round: fails with a timeout when more time has passed than
    /// the timeout allows, and lets the caller poll otherwise.
    pub fn check_deadline(&self, elapsed: Duration) -> (go_on: Result<(), GrokError>)
        ensures
            match go_on {
                Ok(_) => !self.expired_at(elapsed),
                Err(error) => self.expired_at(elapsed) && error@ == timed_out(),
            },
    {
        if elapsed.as_nanos() > self.timeout.as_nanos() {
            Err(GrokError::InvalidRequest("Deferred request timed out".to_string()))
        } else {
            Ok(())
        }
    }

    /// Ends a round: says what follows the reply to the poll.
    pub fn after_reply(&self, reply: Result<Option<ChatResponse>, GrokError>) -> (step: WaitStep)
        ensures
            step@ == self.step_after(reply_view(reply)),
    {
        match reply {
            Ok(Some(response)) => WaitStep::Done(response),
            Ok(None) => WaitStep::Sleep(self.poll_interval),
            Err(error) => WaitStep::Failed(error),
        }
    }
}

/// One round of a wait, as it turned out: the time that had passed when the
/// round began, and what the poll found (had there been one).
pub struct WaitRound {
    pub elapsed: Duration,
    pub reply: Result<Option<ChatResponseView>, GrokErrorView>,
}

/// How a wait ended, and what it took.
pub struct WaitRun {
    /// The result, or `None` when the rounds gave out before the wait ended.
    pub outcome: Option<Result<ChatResponseView, GrokErrorView>>,
    /// Polls made.
    pub polls: nat,
    /// Sleeps made.
    pub sleeps: nat,
}

impl DeferredWait {
    /// The course of a wait whose rounds turn out as given: the rounds are
    /// taken in order, each by the rules of [`DeferredWait::check_deadline`]
    /// and [`DeferredWait::after_reply`], until one of them ends the wait.
    pub open spec fn run(self, rounds: Seq<WaitRound>) -> WaitRun
        decreases rounds.len(),
    {
        if rounds.len() == 0 {
            WaitRun { outcome: None, polls: 0, sleeps: 0 }
        } else if self.expired_at(rounds[0].elapsed) {
            WaitRun { outcome: Some(Err(timed_out())), polls: 0, sleeps: 0 }
        } else {
            match self.step_after(rounds[0].reply) {
                WaitStepView::Done(response) => WaitRun {
                    outcome: Some(Ok(response)),
                    polls: 1,
                    sleeps: 0,
                },
                WaitStepView::Failed(error) => WaitRun {
                    outcome: Some(Err(error)),
                    polls: 1,
                    sleeps: 0,
                },
                WaitStepView::Sleep(_) => {
                    let rest = self.run(rounds.skip(1));
                    WaitRun { outcome: rest.outcome, polls: rest.polls + 1, sleeps: rest.sleeps + 1 }
                },
            }
        }
    }
}

/// The first `n` rounds are in time and find the completion pending.
pub open spec fn pending_in_time(wait: DeferredWait, rounds: Seq<WaitRound>, n: int) -> bool {
    forall|i: int|
        0 <= i < n ==> !wait.expired_at((#[trigger] rounds[i]).elapsed) && rounds[i].reply
            == Ok::<Option<ChatResponseView>, GrokErrorView>(None)
}

/// A completion that is pending for `n` rounds and then done, all within
/// the timeout, is returned: after `n + 1` polls and `n` sleeps, and
/// whatever rounds might have followed.
pub proof fn lemma_wait_returns_payload(
    wait: DeferredWait,
    rounds: Seq<WaitRound>,
    n: int,
    payload: ChatResponseView,
)
    requires
        0 <= n < rounds.len(),
        pending_in_time(wait, rounds, n),
        !wait.expired_at(rounds[n].elapsed),
        rounds[n].reply == Ok::<Option<ChatResponseView>, GrokErrorView>(Some(payload)),
    ensures
        wait.run(rounds).outcome == Some(Ok::<ChatResponseView, GrokErrorView>(payload)),
        wait.run(rounds).polls == n + 1,
        wait.run(rounds).sleeps == n,
    decreases n,
{
    if n > 0 {
        let rest = rounds.skip(1);
        assert forall|i: int| 0 <= i < n - 1 implies !wait.expired_at(
            (#[trigger] rest[i]).elapsed,
        ) && rest[i].reply == Ok::<Option<ChatResponseView>, GrokErrorView>(None) by {
            assert(rest[i] == rounds[i + 1]);
        }
        assert(rest[n - 1] == rounds[n]);
        assert(rounds[0].reply == Ok::<Option<ChatResponseView>, GrokErrorView>(None));
        lemma_wait_returns_payload(wait, rest, n - 1, payload);
    }
}

/// A completion that is still pending when the timeout has passed makes the
/// wait fail with a timeout. The round that finds the time up does not
/// poll, and no later round is looked at: the polls are those of the `n`
/// rounds before it.
pub proof fn lemma_wait_times_out(wait: DeferredWait, rounds: Seq<WaitRound>, n: int)
    requires
        0 <= n < rounds.len(),
        pending_in_time(wait, rounds, n),
        wait.expired_at(rounds[n].elapsed),
    ensures
        wait.run(rounds).outcome == Some(Err::<ChatResponseView, GrokErrorView>(timed_out())),
        wait.run(rounds).polls == n,
        wait.run(rounds).sleeps == n,
        wait.run(rounds) == wait.run(rounds.take(n + 1)),
    decreases n,
{
    if n > 0 {
        let rest = rounds.skip(1);
        assert forall|i: int| 0 <= i < n - 1 implies !wait.expired_at(
            (#[trigger] rest[i]).elapsed,
        ) && rest[i].reply == Ok::<Option<ChatResponseView>, GrokErrorView>(None) by {
            assert(rest[i] == rounds[i + 1]);
        }
        assert(rest[n - 1] == rounds[n]);
        assert(rounds[0].reply == Ok::<Option<ChatResponseView>, GrokErrorView>(None));
        lemma_wait_times_out(wait, rest, n - 1);
        assert(rounds.take(n + 1)[0] == rounds[0]);
        assert(rounds.take(n + 1).skip(1) =~= rest.take(n));
    } else {
        assert(rounds.take(1)[0] == rounds[0]);
    }
}

/// A first poll that fails ends the wait at once with that error: one poll
/// and no sleep. An expired completion is such a failure.
pub proof fn lemma_wait_fails_without_sleeping(
    wait: DeferredWait,
    rounds: Seq<WaitRound>,
    error: GrokErrorView,
)
    requires
        rounds.len() > 0,
        !wait.expired_at(rounds[0].elapsed),
        rounds[0].reply == Err::<Option<ChatResponseView>, GrokErrorView>(error),
    ensures
        wait.run(rounds).outcome == Some(Err::<ChatResponseView, GrokErrorView>(error)),
        wait.run(rounds).polls == 1,
        wait.run(rounds).sleeps == 0,
{
}

/// An expired completion, an invalid state and a completion that is done
/// without a response are failures, whatever else the reply holds; a pending
/// completion is not.
pub proof fn lemma_final_states(wire: proto::GetDeferredCompletionResponseView)
    ensures
        deferred_status_of(wire.status) == DeferredStatus::Expired ==> deferred_reply(wire) == Err::<
            Option<ChatResponseView>,
            GrokErrorView,
        >(GrokErrorView::InvalidRequest("Deferred request has expired"@)),
        deferred_status_of(wire.status) == DeferredStatus::InvalidDeferredStatus ==> deferred_reply(
            wire,
        ) is Err,
        deferred_status_of(wire.status) == DeferredStatus::Done && wire.response is None
            ==> deferred_reply(wire) is Err,
        deferred_status_of(wire.status) == DeferredStatus::Pending ==> deferred_reply(wire) == Ok::<
            Option<ChatResponseView>,
            GrokErrorView,
        >(None),
{
}

} // verus!
