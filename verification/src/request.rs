//! Chat requests and the builder that assembles them.

use vstd::prelude::*;
use crate::json::json_text;
use crate::number::{Float32, ONE_BITS, TWO_BITS, ZERO_BITS};
use crate::proto::IncludeOption;
use crate::copying::{copy_optional_string, copy_strings};
use crate::tools::{copy_tools, Tool, ToolChoice, ToolChoiceView, ToolView};
use vstd::std_specs::convert::FromSpecImpl;

verus! {

/// Generation settings that can be shared between requests.
#[derive(Clone, Debug)]
pub struct CompletionOptions {
    /// Model to use.
    pub model: Option<String>,
    /// Sampling temperature.
    pub temperature: Option<Float32>,
    /// Upper bound on generated tokens.
    pub max_tokens: Option<u32>,
    /// Nucleus sampling mass.
    pub top_p: Option<Float32>,
    /// Penalty on frequent tokens.
    pub frequency_penalty: Option<Float32>,
    /// Penalty on tokens already present.
    pub presence_penalty: Option<Float32>,
    /// Sequences that end generation.
    pub stop_sequences: Vec<String>,
    /// Tools the model may call.
    pub tools: Option<Vec<Tool>>,
    /// Policy for calling tools.
    pub tool_choice: Option<ToolChoice>,
    /// Constraint on the form of the answer.
    pub response_format: Option<ResponseFormat>,
}

/// What a [`CompletionOptions`] holds, as mathematical values.
pub struct CompletionOptionsView {
    pub model: Option<Seq<char>>,
    pub temperature: Option<Float32>,
    pub max_tokens: Option<u32>,
    pub top_p: Option<Float32>,
    pub frequency_penalty: Option<Float32>,
    pub presence_penalty: Option<Float32>,
    pub stop_sequences: Seq<Seq<char>>,
    pub tools: Option<Seq<ToolView>>,
    pub tool_choice: Option<ToolChoiceView>,
    pub response_format: Option<ResponseFormatView>,
}

impl View for CompletionOptions {
    type V = CompletionOptionsView;

    open spec fn view(&self) -> CompletionOptionsView {
        CompletionOptionsView {
            model: self.model.deep_view(),
            temperature: self.temperature,
            max_tokens: self.max_tokens,
            top_p: self.top_p,
            frequency_penalty: self.frequency_penalty,
            presence_penalty: self.presence_penalty,
            stop_sequences: self.stop_sequences.deep_view(),
            tools: self.tools.deep_view(),
            tool_choice: self.tool_choice.deep_view(),
            response_format: self.response_format.deep_view(),
        }
    }
}

impl DeepView for CompletionOptions {
    type V = CompletionOptionsView;

    open spec fn deep_view(&self) -> CompletionOptionsView {
        self@
    }
}

/// A chat completion request under construction.
///
/// The messages are kept in the order in which they were added; every setter
/// changes one setting and leaves the rest as it was.
#[derive(Debug)]
pub struct ChatRequest {
    messages: Vec<Message>,
    model: Option<String>,
    max_tokens: Option<u32>,
    temperature: Option<Float32>,
    top_p: Option<Float32>,
    stop: Vec<String>,
    reasoning_effort: Option<ReasoningEffort>,
    search: Option<SearchConfig>,
    seed: Option<i32>,
    response_format: Option<ResponseFormat>,
    tools: Option<Vec<Tool>>,
    tool_choice: Option<ToolChoice>,
    user: Option<String>,
    logprobs: bool,
    top_logprobs: Option<i32>,
    frequency_penalty: Option<Float32>,
    presence_penalty: Option<Float32>,
    parallel_tool_calls: Option<bool>,
    previous_response_id: Option<String>,
    store_messages: bool,
    use_encrypted_content: bool,
    max_turns: Option<i32>,
    include_options: Vec<IncludeOption>,
}

/// What a [`ChatRequest`] holds, as mathematical values.
pub struct ChatRequestView {
    /// Conversation so far, oldest first.
    pub messages: Seq<MessageView>,
    /// Model to use; the client's default when unset.
    pub model: Option<Seq<char>>,
    /// Upper bound on generated tokens.
    pub max_tokens: Option<u32>,
    /// Sampling temperature.
    pub temperature: Option<Float32>,
    /// Nucleus sampling mass.
    pub top_p: Option<Float32>,
    /// Sequences that end generation.
    pub stop: Seq<Seq<char>>,
    /// How much the model should reason.
    pub reasoning_effort: Option<ReasoningEffort>,
    /// Live search settings.
    pub search: Option<SearchConfigView>,
    /// Seed for repeatable sampling.
    pub seed: Option<i32>,
    /// Constraint on the form of the answer.
    pub response_format: Option<ResponseFormatView>,
    /// Tools the model may call.
    pub tools: Option<Seq<ToolView>>,
    /// Policy for calling tools.
    pub tool_choice: Option<ToolChoiceView>,
    /// End-user identifier.
    pub user: Option<Seq<char>>,
    /// Whether log probabilities are returned.
    pub logprobs: bool,
    /// Number of alternatives per token.
    pub top_logprobs: Option<i32>,
    /// Penalty on frequent tokens.
    pub frequency_penalty: Option<Float32>,
    /// Penalty on tokens already present.
    pub presence_penalty: Option<Float32>,
    /// Whether tool calls may run in parallel.
    pub parallel_tool_calls: Option<bool>,
    /// Stored response this request continues.
    pub previous_response_id: Option<Seq<char>>,
    /// Whether the service stores the exchange.
    pub store_messages: bool,
    /// Whether reasoning is returned encrypted.
    pub use_encrypted_content: bool,
    /// Upper bound on agentic tool-calling turns; at least 1 when set.
    pub max_turns: Option<i32>,
    /// Optional outputs asked for.
    pub include_options: Seq<IncludeOption>,
}

impl View for ChatRequest {
    type V = ChatRequestView;

    closed spec fn view(&self) -> ChatRequestView {
        ChatRequestView {
            messages: self.messages.deep_view(),
            model: self.model.deep_view(),
            max_tokens: self.max_tokens,
            temperature: self.temperature,
            top_p: self.top_p,
            stop: self.stop.deep_view(),
            reasoning_effort: self.reasoning_effort,
            search: self.search.deep_view(),
            seed: self.seed,
            response_format: self.response_format.deep_view(),
            tools: self.tools.deep_view(),
            tool_choice: self.tool_choice.deep_view(),
            user: self.user.deep_view(),
            logprobs: self.logprobs,
            top_logprobs: self.top_logprobs,
            frequency_penalty: self.frequency_penalty,
            presence_penalty: self.presence_penalty,
            parallel_tool_calls: self.parallel_tool_calls,
            previous_response_id: self.previous_response_id.deep_view(),
            store_messages: self.store_messages,
            use_encrypted_content: self.use_encrypted_content,
            max_turns: self.max_turns,
            include_options: self.include_options@,
        }
    }
}

impl DeepView for ChatRequest {
    type V = ChatRequestView;

    open spec fn deep_view(&self) -> ChatRequestView {
        self@
    }
}

/// A message of a conversation.
///
/// The service matches tool results to tool calls by position: tool results
/// must be added in the order in which the model made the calls. The call
/// identifier is kept for callers and is not what the service goes by.
#[derive(Debug)]
pub enum Message {
    /// Instructions to the model.
    System(String),
    /// Input of the user, text or multimodal.
    User(MessageContent),
    /// An earlier answer of the model.
    Assistant(String),
    /// Result of a tool call.
    Tool {
        /// Identifier of the call that is answered.
        tool_call_id: String,
        /// Result of the call.
        content: String,
    },
}

/// What a [`Message`] holds, as mathematical values.
pub enum MessageView {
    System(Seq<char>),
    User(MessageContentView),
    Assistant(Seq<char>),
    Tool { tool_call_id: Seq<char>, content: Seq<char> },
}

impl View for Message {
    type V = MessageView;

    open spec fn view(&self) -> MessageView {
        match self {
            Message::System(inner) => MessageView::System(inner@),
            Message::User(inner) => MessageView::User(inner@),
            Message::Assistant(inner) => MessageView::Assistant(inner@),
            Message::Tool { tool_call_id, content } => MessageView::Tool { tool_call_id: tool_call_id@, content: content@ },
        }
    }
}

impl DeepView for Message {
    type V = MessageView;

    open spec fn deep_view(&self) -> MessageView {
        self@
    }
}

/// Content of a user message.
#[derive(Debug)]
pub enum MessageContent {
    /// Plain text.
    Text(String),
    /// Parts of several kinds, in order.
    MultiModal(Vec<ContentPart>),
}

/// What a [`MessageContent`] holds, as mathematical values.
pub enum MessageContentView {
    Text(Seq<char>),
    MultiModal(Seq<ContentPartView>),
}

impl View for MessageContent {
    type V = MessageContentView;

    open spec fn view(&self) -> MessageContentView {
        match self {
            MessageContent::Text(inner) => MessageContentView::Text(inner@),
            MessageContent::MultiModal(inner) => MessageContentView::MultiModal(inner.deep_view()),
        }
    }
}

impl DeepView for MessageContent {
    type V = MessageContentView;

    open spec fn deep_view(&self) -> MessageContentView {
        self@
    }
}

/// One part of a multimodal message.
#[derive(Debug)]
pub enum ContentPart {
    /// Text.
    Text(String),
    /// An image, by URL; the library never fetches it.
    ImageUrl {
        /// URL of the image.
        url: String,
        /// Detail at which the image is read.
        detail: Option<ImageDetail>,
    },
    /// An uploaded file, by identifier.
    File {
        /// Identifier of the file.
        file_id: String,
    },
}

/// What a [`ContentPart`] holds, as mathematical values.
pub enum ContentPartView {
    Text(Seq<char>),
    ImageUrl { url: Seq<char>, detail: Option<ImageDetail> },
    File { file_id: Seq<char> },
}

impl View for ContentPart {
    type V = ContentPartView;

    open spec fn view(&self) -> ContentPartView {
        match self {
            ContentPart::Text(inner) => ContentPartView::Text(inner@),
            ContentPart::ImageUrl { url, detail } => ContentPartView::ImageUrl { url: url@, detail: *detail },
            ContentPart::File { file_id } => ContentPartView::File { file_id: file_id@ },
        }
    }
}

impl DeepView for ContentPart {
    type V = ContentPartView;

    open spec fn deep_view(&self) -> ContentPartView {
        self@
    }
}

/// Detail at which an image is read.
#[derive(Clone, Copy, Debug, PartialEq, Eq, Structural)]
pub enum ImageDetail {
    /// Chosen by the service.
    Auto,
    /// Low detail: faster and cheaper.
    Low,
    /// High detail: slower and more exact.
    High,
}

/// How much the model should reason before it answers.
#[derive(Clone, Copy, Debug, PartialEq, Eq, Structural)]
pub enum ReasoningEffort {
    /// Little reasoning.
    Low,
    /// Balanced.
    Medium,
    /// As much as hard problems need.
    High,
}

/// Live search settings.
#[derive(Debug)]
pub struct SearchConfig {
    /// Whether search is used.
    pub mode: SearchMode,
    /// Where to search.
    pub sources: Vec<SearchSource>,
    /// Upper bound on search results.
    pub max_results: Option<u32>,
}

/// What a [`SearchConfig`] holds, as mathematical values.
pub struct SearchConfigView {
    pub mode: SearchMode,
    pub sources: Seq<SearchSource>,
    pub max_results: Option<u32>,
}

impl View for SearchConfig {
    type V = SearchConfigView;

    open spec fn view(&self) -> SearchConfigView {
        SearchConfigView {
            mode: self.mode,
            sources: self.sources@,
            max_results: self.max_results,
        }
    }
}

impl DeepView for SearchConfig {
    type V = SearchConfigView;

    open spec fn deep_view(&self) -> SearchConfigView {
        self@
    }
}

/// Whether live search is used.
#[derive(Clone, Copy, Debug, PartialEq, Eq, Structural)]
pub enum SearchMode {
    /// Never.
    Off,
    /// Always.
    On,
    /// When the model sees a need.
    Auto,
}

/// A source of live search results.
#[derive(Clone, Copy, Debug, PartialEq, Eq, Structural)]
pub enum SearchSource {
    /// The web.
    Web,
    /// Posts on X.
    X,
    /// News articles.
    News,
}

/// Constraint on the form of the answer.
#[derive(Debug)]
pub enum ResponseFormat {
    /// Free text.
    Text,
    /// Any JSON object.
    JsonObject,
    /// JSON that follows the given schema.
    JsonSchema(serde_json::Value),
}

/// What a [`ResponseFormat`] holds, as mathematical values.
pub enum ResponseFormatView {
    Text,
    JsonObject,
    JsonSchema(Seq<char>),
}

impl View for ResponseFormat {
    type V = ResponseFormatView;

    open spec fn view(&self) -> ResponseFormatView {
        match self {
            ResponseFormat::Text => ResponseFormatView::Text,
            ResponseFormat::JsonObject => ResponseFormatView::JsonObject,
            ResponseFormat::JsonSchema(inner) => ResponseFormatView::JsonSchema(json_text(*inner)),
        }
    }
}

impl DeepView for ResponseFormat {
    type V = ResponseFormatView;

    open spec fn deep_view(&self) -> ResponseFormatView {
        self@
    }
}

impl Clone for ContentPart {
    fn clone(&self) -> (copy: Self)
        ensures
            copy@ == self@,
    {
        match self {
            ContentPart::Text(text) => ContentPart::Text(text.clone()),
            ContentPart::ImageUrl { url, detail } => ContentPart::ImageUrl {
                url: url.clone(),
                detail: *detail,
            },
            ContentPart::File { file_id } => ContentPart::File { file_id: file_id.clone() },
        }
    }
}

impl Clone for MessageContent {
    fn clone(&self) -> (copy: Self)
        ensures
            copy@ == self@,
    {
        match self {
            MessageContent::Text(text) => MessageContent::Text(text.clone()),
            MessageContent::MultiModal(parts) => {
                let mut copy: Vec<ContentPart> = Vec::new();
                let mut i: usize = 0;
                while i < parts.len()
                    invariant
                        i <= parts@.len(),
                        copy@.len() == i,
                        forall|j: int| 0 <= j < i ==> (#[trigger] copy@[j])@ == parts@[j]@,
                    decreases parts@.len() - i,
                {
                    copy.push(parts[i].clone());
                    i += 1;
                }
                assert(copy.deep_view() =~= parts.deep_view());
                MessageContent::MultiModal(copy)
            },
        }
    }
}

impl Clone for Message {
    fn clone(&self) -> (copy: Self)
        ensures
            copy@ == self@,
    {
        match self {
            Message::System(text) => Message::System(text.clone()),
            Message::User(content) => Message::User(content.clone()),
            Message::Assistant(text) => Message::Assistant(text.clone()),
            Message::Tool { tool_call_id, content } => Message::Tool {
                tool_call_id: tool_call_id.clone(),
                content: content.clone(),
            },
        }
    }
}

impl Clone for SearchConfig {
    fn clone(&self) -> (copy: Self)
        ensures
            copy@ == self@,
    {
        let sources = self.sources.clone();
        assert(sources@ =~= self.sources@);
        SearchConfig { mode: self.mode, sources, max_results: self.max_results }
    }
}

impl Clone for ResponseFormat {
    fn clone(&self) -> (copy: Self)
        ensures
            copy@ == self@,
    {
        match self {
            ResponseFormat::Text => ResponseFormat::Text,
            ResponseFormat::JsonObject => ResponseFormat::JsonObject,
            ResponseFormat::JsonSchema(schema) => ResponseFormat::JsonSchema(schema.clone()),
        }
    }
}

/// A copy of a list of messages.
fn copy_messages(messages: &Vec<Message>) -> (copy: Vec<Message>)
    ensures
        copy.deep_view() == messages.deep_view(),
{
    let mut copy: Vec<Message> = Vec::new();
    let mut i: usize = 0;
    while i < messages.len()
        invariant
            i <= messages@.len(),
            copy@.len() == i,
            forall|j: int| 0 <= j < i ==> (#[trigger] copy@[j])@ == messages@[j]@,
        decreases messages@.len() - i,
    {
        copy.push(messages[i].clone());
        i += 1;
    }
    assert(copy.deep_view() =~= messages.deep_view());
    copy
}

impl CompletionOptionsView {
    /// Options with nothing set.
    pub open spec fn unset() -> CompletionOptionsView {
        CompletionOptionsView {
            model: None,
            temperature: None,
            max_tokens: None,
            top_p: None,
            frequency_penalty: None,
            presence_penalty: None,
            stop_sequences: Seq::empty(),
            tools: None,
            tool_choice: None,
            response_format: None,
        }
    }
}

impl CompletionOptions {
    /// Options with nothing set.
    pub fn new() -> (options: Self)
        ensures
            options@ == CompletionOptionsView::unset(),
    {
        let options = CompletionOptions {
            model: None,
            temperature: None,
            max_tokens: None,
            top_p: None,
            frequency_penalty: None,
            presence_penalty: None,
            stop_sequences: Vec::new(),
            tools: None,
            tool_choice: None,
            response_format: None,
        };
        assert(options.stop_sequences.deep_view() =~= Seq::empty());
        options
    }

    /// Sets the model.
    pub fn with_model(self, model: &str) -> (options: Self)
        ensures
            options@ == (CompletionOptionsView { model: Some(model@), ..self@ }),
    {
        let mut options = self;
        options.model = Some(model.to_string());
        options
    }

    /// Sets the sampling temperature, as given.
    pub fn with_temperature(self, temp: Float32) -> (options: Self)
        ensures
            options@ == (CompletionOptionsView { temperature: Some(temp), ..self@ }),
    {
        let mut options = self;
        options.temperature = Some(temp);
        options
    }

    /// Sets the upper bound on generated tokens.
    pub fn with_max_tokens(self, tokens: u32) -> (options: Self)
        ensures
            options@ == (CompletionOptionsView { max_tokens: Some(tokens), ..self@ }),
    {
        let mut options = self;
        options.max_tokens = Some(tokens);
        options
    }
}

impl Default for CompletionOptions {
    fn default() -> (options: Self)
        ensures
            options@ == CompletionOptionsView::unset(),
    {
        CompletionOptions::new()
    }
}

impl From<String> for MessageContent {
    /// A text is a text-only content.
    fn from(text: String) -> (content: MessageContent)
        ensures
            content@ == MessageContentView::Text(text@),
    {
        MessageContent::Text(text)
    }
}

impl FromSpecImpl<String> for MessageContent {
    open spec fn obeys_from_spec() -> bool {
        true
    }

    open spec fn from_spec(text: String) -> MessageContent {
        MessageContent::Text(text)
    }
}

impl<'a> From<&'a str> for MessageContent {
    /// A text is a text-only content.
    fn from(text: &'a str) -> (content: MessageContent)
        ensures
            content@ == MessageContentView::Text(text@),
    {
        MessageContent::Text(text.to_string())
    }
}

impl<'a> FromSpecImpl<&'a str> for MessageContent {
    open spec fn obeys_from_spec() -> bool {
        false
    }

    open spec fn from_spec(text: &'a str) -> MessageContent {
        arbitrary()
    }
}

impl SearchConfigView {
    /// Search of the web when the model sees a need, with at most five results.
    pub open spec fn web() -> SearchConfigView {
        SearchConfigView {
            mode: SearchMode::Auto,
            sources: seq![SearchSource::Web],
            max_results: Some(5u32),
        }
    }
}

impl SearchConfig {
    /// Search of the web when the model sees a need, with at most five results.
    pub fn web() -> (config: Self)
        ensures
            config@ == SearchConfigView::web(),
    {
        let mut sources: Vec<SearchSource> = Vec::new();
        sources.push(SearchSource::Web);
        assert(sources@ =~= seq![SearchSource::Web]);
        SearchConfig { mode: SearchMode::Auto, sources, max_results: Some(5) }
    }
}

impl ChatRequestView {
    /// A request with no message and nothing set.
    pub open spec fn empty() -> ChatRequestView {
        ChatRequestView {
            messages: Seq::empty(),
            model: None,
            max_tokens: None,
            temperature: None,
            top_p: None,
            stop: Seq::empty(),
            reasoning_effort: None,
            search: None,
            seed: None,
            response_format: None,
            tools: None,
            tool_choice: None,
            user: None,
            logprobs: false,
            top_logprobs: None,
            frequency_penalty: None,
            presence_penalty: None,
            parallel_tool_calls: None,
            previous_response_id: None,
            store_messages: false,
            use_encrypted_content: false,
            max_turns: None,
            include_options: Seq::empty(),
        }
    }

    /// What is stored for a number that must lie in an interval: the number
    /// restricted to the interval, and the lower end of the interval for
    /// what is no number at all.
    pub open spec fn restricted(value: Float32, low: Float32, high: Float32) -> Float32 {
        if value.is_nan_spec() {
            low
        } else {
            value.clamp_spec(low, high)
        }
    }

    /// The request after the temperature was set: what was given,
    /// restricted to the interval from 0 to 2.
    pub open spec fn with_temperature(self, temp: Float32) -> ChatRequestView {
        ChatRequestView {
            temperature: Some(
                Self::restricted(temp, Float32 { bits: ZERO_BITS }, Float32 { bits: TWO_BITS }),
            ),
            ..self
        }
    }

    /// The request after the nucleus sampling mass was set: what was given,
    /// restricted to the interval from 0 to 1.
    pub open spec fn with_top_p(self, top_p: Float32) -> ChatRequestView {
        ChatRequestView {
            top_p: Some(
                Self::restricted(top_p, Float32 { bits: ZERO_BITS }, Float32 { bits: ONE_BITS }),
            ),
            ..self
        }
    }

    /// Whether a bound on agentic tool-calling turns is allowed: it must be
    /// at least 1.
    pub open spec fn allows_max_turns(max_turns: i32) -> bool {
        max_turns >= 1
    }

    /// The request with one more message at the end.
    pub open spec fn with_message(self, message: MessageView) -> ChatRequestView {
        ChatRequestView { messages: self.messages.push(message), ..self }
    }

    /// The tools after one more was added: the list is started where there
    /// was none.
    pub open spec fn tools_with(self, tool: ToolView) -> Seq<ToolView> {
        match self.tools {
            Some(tools) => tools.push(tool),
            None => seq![tool],
        }
    }
}

impl ChatRequest {
    /// What holds of every request: the temperature, where it is set, lies
    /// between 0 and 2, the nucleus sampling mass between 0 and 1, and the
    /// number of turns is at least 1.
    #[verifier::type_invariant]
    spec fn settings_in_range(self) -> bool {
        &&& self.temperature matches Some(temp) ==> (Float32 { bits: ZERO_BITS }).le_spec(temp)
            && temp.le_spec(Float32 { bits: TWO_BITS })
        &&& self.top_p matches Some(top_p) ==> (Float32 { bits: ZERO_BITS }).le_spec(top_p)
            && top_p.le_spec(Float32 { bits: ONE_BITS })
        &&& self.max_turns matches Some(turns) ==> turns >= 1
    }

    /// A request with no message and nothing set.
    pub fn new() -> (request: Self)
        ensures
            request@ == ChatRequestView::empty(),
    {
        let messages: Vec<Message> = Vec::new();
        assert(messages.deep_view() =~= Seq::empty());
        Self::from_messages(messages)
    }

    /// Appends a user message with the given text.
    pub fn user_message(self, content: &str) -> (request: Self)
        ensures
            request@ == self@.with_message(MessageView::User(MessageContentView::Text(content@))),
    {
        self.push_message(Message::User(MessageContent::Text(content.to_string())))
    }

    /// Appends a system message.
    pub fn system_message(self, content: &str) -> (request: Self)
        ensures
            request@ == self@.with_message(MessageView::System(content@)),
    {
        self.push_message(Message::System(content.to_string()))
    }

    /// Appends an assistant message.
    pub fn assistant_message(self, content: &str) -> (request: Self)
        ensures
            request@ == self@.with_message(MessageView::Assistant(content@)),
    {
        self.push_message(Message::Assistant(content.to_string()))
    }

    /// Appends the result of a tool call.
    ///
    /// Results must be appended in the order in which the model made the
    /// calls: the service matches them by position, not by identifier.
    pub fn tool_result(self, tool_call_id: &str, content: &str) -> (request: Self)
        ensures
            request@ == self@.with_message(
                MessageView::Tool { tool_call_id: tool_call_id@, content: content@ },
            ),
    {
        self.push_message(
            Message::Tool { tool_call_id: tool_call_id.to_string(), content: content.to_string() },
        )
    }

    /// Appends a user message made of the given parts, in their order.
    pub fn user_multimodal(self, parts: Vec<ContentPart>) -> (request: Self)
        ensures
            request@ == self@.with_message(
                MessageView::User(MessageContentView::MultiModal(parts.deep_view())),
            ),
    {
        self.push_message(Message::User(MessageContent::MultiModal(parts)))
    }

    /// Appends a user message made of a text and an image, in that order.
    pub fn user_with_image(self, text: &str, image_url: &str) -> (request: Self)
        ensures
            request@ == self@.with_message(
                MessageView::User(
                    MessageContentView::MultiModal(
                        seq![
                            ContentPartView::Text(text@),
                            ContentPartView::ImageUrl { url: image_url@, detail: None },
                        ],
                    ),
                ),
            ),
    {
        let mut parts: Vec<ContentPart> = Vec::new();
        parts.push(ContentPart::Text(text.to_string()));
        parts.push(ContentPart::ImageUrl { url: image_url.to_string(), detail: None });
        assert(parts.deep_view() =~= seq![
            ContentPartView::Text(text@),
            ContentPartView::ImageUrl { url: image_url@, detail: None },
        ]);
        self.push_message(Message::User(MessageContent::MultiModal(parts)))
    }

    /// Appends a user message made of a text and an uploaded file, in that order.
    pub fn user_with_file(self, text: &str, file_id: &str) -> (request: Self)
        ensures
            request@ == self@.with_message(
                MessageView::User(
                    MessageContentView::MultiModal(
                        seq![
                            ContentPartView::Text(text@),
                            ContentPartView::File { file_id: file_id@ },
                        ],
                    ),
                ),
            ),
    {
        let mut parts: Vec<ContentPart> = Vec::new();
        parts.push(ContentPart::Text(text.to_string()));
        parts.push(ContentPart::File { file_id: file_id.to_string() });
        assert(parts.deep_view() =~= seq![
            ContentPartView::Text(text@),
            ContentPartView::File { file_id: file_id@ },
        ]);
        self.push_message(Message::User(MessageContent::MultiModal(parts)))
    }

    /// Appends a message; everything else stays.
    fn push_message(self, message: Message) -> (request: Self)
        ensures
            request@ == self@.with_message(message@),
    {
        let mut request = self;
        proof {
            use_type_invariant(&request);
        }
        let mut messages = request.messages;
        messages.push(message);
        assert(messages.deep_view() =~= self.messages.deep_view().push(message@));
        request.messages = messages;
        request
    }

    /// Sets the model.
    pub fn with_model(self, model: &str) -> (request: Self)
        ensures
            request@ == (ChatRequestView { model: Some(model@), ..self@ }),
    {
        let mut request = self;
        proof {
            use_type_invariant(&request);
        }
        request.model = Some(model.to_string());
        request
    }

    /// Restricts a number to an interval; what is no number at all becomes
    /// the lower end.
    fn restrict(value: Float32, low: Float32, high: Float32) -> (stored: Float32)
        requires
            low.le_spec(high),
        ensures
            stored == ChatRequestView::restricted(value, low, high),
            low.le_spec(stored),
            stored.le_spec(high),
    {
        if value.is_nan() {
            low
        } else {
            value.clamp(low, high)
        }
    }

    /// Sets the sampling temperature. The stored value always lies in the
    /// interval from 0 to 2: a number outside it is moved to the nearer end,
    /// and what is no number at all is stored as 0.
    pub fn with_temperature(self, temp: Float32) -> (request: Self)
        ensures
            request@ == self@.with_temperature(temp),
            request@.temperature matches Some(stored) && (Float32 { bits: ZERO_BITS }).le_spec(
                stored,
            ) && stored.le_spec(Float32 { bits: TWO_BITS }),
    {
        let mut request = self;
        proof {
            use_type_invariant(&request);
        }
        request.temperature = Some(Self::restrict(temp, Float32::zero(), Float32::two()));
        request
    }

    /// Sets the nucleus sampling mass. The stored value always lies in the
    /// interval from 0 to 1: a number outside it is moved to the nearer end,
    /// and what is no number at all is stored as 0.
    pub fn with_top_p(self, top_p: Float32) -> (request: Self)
        ensures
            request@ == self@.with_top_p(top_p),
            request@.top_p matches Some(stored) && (Float32 { bits: ZERO_BITS }).le_spec(stored)
                && stored.le_spec(Float32 { bits: ONE_BITS }),
    {
        let mut request = self;
        proof {
            use_type_invariant(&request);
        }
        request.top_p = Some(Self::restrict(top_p, Float32::zero(), Float32::one()));
        request
    }

    /// Sets the upper bound on generated tokens.
    pub fn with_max_tokens(self, tokens: u32) -> (request: Self)
        ensures
            request@ == (ChatRequestView { max_tokens: Some(tokens), ..self@ }),
    {
        let mut request = self;
        proof {
            use_type_invariant(&request);
        }
        request.max_tokens = Some(tokens);
        request
    }

    /// Sets the reasoning effort.
    pub fn with_reasoning_effort(self, effort: ReasoningEffort) -> (request: Self)
        ensures
            request@ == (ChatRequestView { reasoning_effort: Some(effort), ..self@ }),
    {
        let mut request = self;
        proof {
            use_type_invariant(&request);
        }
        request.reasoning_effort = Some(effort);
        request
    }

    /// Switches live search of the web on, as [`SearchConfig::web`] sets it up.
    pub fn with_web_search(self) -> (request: Self)
        ensures
            request@ == (ChatRequestView { search: Some(SearchConfigView::web()), ..self@ }),
    {
        let mut request = self;
        proof {
            use_type_invariant(&request);
        }
        request.search = Some(SearchConfig::web());
        request
    }

    /// Asks for an answer that is a JSON object.
    pub fn with_json_output(self) -> (request: Self)
        ensures
            request@ == (ChatRequestView {
                response_format: Some(ResponseFormatView::JsonObject),
                ..self@
            }),
    {
        let mut request = self;
        proof {
            use_type_invariant(&request);
        }
        request.response_format = Some(ResponseFormat::JsonObject);
        request
    }

    /// Asks for an answer that follows the given JSON schema.
    pub fn with_json_schema(self, schema: serde_json::Value) -> (request: Self)
        ensures
            request@ == (ChatRequestView {
                response_format: Some(ResponseFormatView::JsonSchema(json_text(schema))),
                ..self@
            }),
    {
        let mut request = self;
        proof {
            use_type_invariant(&request);
        }
        request.response_format = Some(ResponseFormat::JsonSchema(schema));
        request
    }

    /// The older name of [`ChatRequest::with_json_schema`].
    pub fn with_structured_output(self, schema: serde_json::Value) -> (request: Self)
        ensures
            request@ == (ChatRequestView {
                response_format: Some(ResponseFormatView::JsonSchema(json_text(schema))),
                ..self@
            }),
    {
        self.with_json_schema(schema)
    }

    /// Sets the seed.
    pub fn with_seed(self, seed: i32) -> (request: Self)
        ensures
            request@ == (ChatRequestView { seed: Some(seed), ..self@ }),
    {
        let mut request = self;
        proof {
            use_type_invariant(&request);
        }
        request.seed = Some(seed);
        request
    }

    /// Appends a stop sequence.
    pub fn add_stop_sequence(self, seq: &str) -> (request: Self)
        ensures
            request@ == (ChatRequestView { stop: self@.stop.push(seq@), ..self@ }),
    {
        let mut request = self;
        proof {
            use_type_invariant(&request);
        }
        let mut stop = request.stop;
        stop.push(seq.to_string());
        assert(stop.deep_view() =~= self.stop.deep_view().push(seq@));
        request.stop = stop;
        request
    }

    /// Replaces the tools.
    pub fn with_tools(self, tools: Vec<Tool>) -> (request: Self)
        ensures
            request@ == (ChatRequestView { tools: Some(tools.deep_view()), ..self@ }),
    {
        let mut request = self;
        proof {
            use_type_invariant(&request);
        }
        request.tools = Some(tools);
        request
    }

    /// Appends a tool; the list of tools is started where there was none.
    pub fn add_tool(self, tool: Tool) -> (request: Self)
        ensures
            request@ == (ChatRequestView { tools: Some(self@.tools_with(tool@)), ..self@ }),
    {
        let mut request = self;
        proof {
            use_type_invariant(&request);
        }
        let mut tools: Vec<Tool> = match request.tools {
            Some(tools) => tools,
            None => Vec::new(),
        };
        let ghost before = tools.deep_view();
        tools.push(tool);
        assert(tools.deep_view() =~= before.push(tool@));
        assert(self.tools is None ==> before =~= Seq::empty());
        assert(seq![tool@] =~= Seq::empty().push(tool@));
        request.tools = Some(tools);
        request
    }

    /// Sets the tool-choice policy.
    pub fn with_tool_choice(self, choice: ToolChoice) -> (request: Self)
        ensures
            request@ == (ChatRequestView { tool_choice: Some(choice@), ..self@ }),
    {
        let mut request = self;
        proof {
            use_type_invariant(&request);
        }
        request.tool_choice = Some(choice);
        request
    }

    /// Sets the end-user identifier.
    pub fn with_user(self, user: &str) -> (request: Self)
        ensures
            request@ == (ChatRequestView { user: Some(user@), ..self@ }),
    {
        let mut request = self;
        proof {
            use_type_invariant(&request);
        }
        request.user = Some(user.to_string());
        request
    }

    /// Asks for log probabilities, with the given number of alternatives per token.
    pub fn with_logprobs(self, top_logprobs: Option<i32>) -> (request: Self)
        ensures
            request@ == (ChatRequestView { logprobs: true, top_logprobs: top_logprobs, ..self@ }),
    {
        let mut request = self;
        proof {
            use_type_invariant(&request);
        }
        request.logprobs = true;
        request.top_logprobs = top_logprobs;
        request
    }

    /// Sets the frequency penalty, as given.
    pub fn with_frequency_penalty(self, penalty: Float32) -> (request: Self)
        ensures
            request@ == (ChatRequestView { frequency_penalty: Some(penalty), ..self@ }),
    {
        let mut request = self;
        proof {
            use_type_invariant(&request);
        }
        request.frequency_penalty = Some(penalty);
        request
    }

    /// Sets the presence penalty, as given.
    pub fn with_presence_penalty(self, penalty: Float32) -> (request: Self)
        ensures
            request@ == (ChatRequestView { presence_penalty: Some(penalty), ..self@ }),
    {
        let mut request = self;
        proof {
            use_type_invariant(&request);
        }
        request.presence_penalty = Some(penalty);
        request
    }

    /// Allows or forbids tool calls in parallel.
    pub fn with_parallel_tool_calls(self, enabled: bool) -> (request: Self)
        ensures
            request@ == (ChatRequestView { parallel_tool_calls: Some(enabled), ..self@ }),
    {
        let mut request = self;
        proof {
            use_type_invariant(&request);
        }
        request.parallel_tool_calls = Some(enabled);
        request
    }

    /// Names the stored response that this request continues.
    pub fn with_previous_response_id(self, id: &str) -> (request: Self)
        ensures
            request@ == (ChatRequestView { previous_response_id: Some(id@), ..self@ }),
    {
        let mut request = self;
        proof {
            use_type_invariant(&request);
        }
        request.previous_response_id = Some(id.to_string());
        request
    }

    /// Asks the service to store the exchange, or not to.
    pub fn with_store_messages(self, store: bool) -> (request: Self)
        ensures
            request@ == (ChatRequestView { store_messages: store, ..self@ }),
    {
        let mut request = self;
        proof {
            use_type_invariant(&request);
        }
        request.store_messages = store;
        request
    }

    /// Asks for reasoning to be returned encrypted, or not.
    pub fn with_use_encrypted_content(self, use_encrypted: bool) -> (request: Self)
        ensures
            request@ == (ChatRequestView { use_encrypted_content: use_encrypted, ..self@ }),
    {
        let mut request = self;
        proof {
            use_type_invariant(&request);
        }
        request.use_encrypted_content = use_encrypted;
        request
    }

    /// Whether [`ChatRequest::with_max_turns`] accepts the bound.
    pub fn accepts_max_turns(max_turns: i32) -> (accepted: bool)
        ensures
            accepted == ChatRequestView::allows_max_turns(max_turns),
    {
        max_turns >= 1
    }

    /// Sets the upper bound on agentic tool-calling turns. A bound below 1
    /// is a mistake of the caller.
    pub fn with_max_turns(self, max_turns: i32) -> (request: Self)
        requires
            ChatRequestView::allows_max_turns(max_turns),
        ensures
            request@ == (ChatRequestView { max_turns: Some(max_turns), ..self@ }),
    {
        let mut request = self;
        proof {
            use_type_invariant(&request);
        }
        request.max_turns = Some(max_turns);
        request
    }

    /// Asks for one more optional output.
    pub fn add_include_option(self, option: IncludeOption) -> (request: Self)
        ensures
            request@ == (ChatRequestView {
                include_options: self@.include_options.push(option),
                ..self@
            }),
    {
        let mut request = self;
        proof {
            use_type_invariant(&request);
        }
        let mut options = request.include_options;
        options.push(option);
        request.include_options = options;
        request
    }

    /// Replaces the optional outputs asked for.
    pub fn with_include_options(self, options: Vec<IncludeOption>) -> (request: Self)
        ensures
            request@ == (ChatRequestView { include_options: options@, ..self@ }),
    {
        let mut request = self;
        proof {
            use_type_invariant(&request);
        }
        request.include_options = options;
        request
    }

    /// The messages, oldest first.
    pub fn messages(&self) -> (messages: &[Message])
        ensures
            messages.deep_view() == self@.messages,
    {
        let messages = self.messages.as_slice();
        assert(messages.deep_view() =~= self.messages.deep_view());
        messages
    }

    /// The model, where one is set.
    pub fn model(&self) -> (model: Option<&str>)
        ensures
            model.deep_view() == self@.model,
    {
        match &self.model {
            Some(model) => Some(model.as_str()),
            None => None,
        }
    }

    /// The upper bound on generated tokens.
    pub fn max_tokens(&self) -> (tokens: Option<u32>)
        ensures
            tokens == self@.max_tokens,
    {
        self.max_tokens
    }

    /// The sampling temperature; between 0 and 2 where set.
    pub fn temperature(&self) -> (temp: Option<Float32>)
        ensures
            temp == self@.temperature,
            temp matches Some(stored) ==> (Float32 { bits: ZERO_BITS }).le_spec(stored)
                && stored.le_spec(Float32 { bits: TWO_BITS }),
    {
        proof {
            use_type_invariant(self);
        }
        self.temperature
    }

    /// The nucleus sampling mass; between 0 and 1 where set.
    pub fn top_p(&self) -> (top_p: Option<Float32>)
        ensures
            top_p == self@.top_p,
            top_p matches Some(stored) ==> (Float32 { bits: ZERO_BITS }).le_spec(stored)
                && stored.le_spec(Float32 { bits: ONE_BITS }),
    {
        proof {
            use_type_invariant(self);
        }
        self.top_p
    }

    /// The stop sequences, in the order in which they were added.
    pub fn stop_sequences(&self) -> (stop: &[String])
        ensures
            stop.deep_view() == self@.stop,
    {
        let stop = self.stop.as_slice();
        assert(stop.deep_view() =~= self.stop.deep_view());
        stop
    }

    /// The reasoning effort.
    pub fn reasoning_effort(&self) -> (effort: Option<&ReasoningEffort>)
        ensures
            match effort {
                Some(effort) => self@.reasoning_effort == Some(*effort),
                None => self@.reasoning_effort is None,
            },
    {
        self.reasoning_effort.as_ref()
    }

    /// The live search settings.
    pub fn search_config(&self) -> (search: Option<&SearchConfig>)
        ensures
            search.deep_view() == self@.search,
    {
        self.search.as_ref()
    }

    /// The seed.
    pub fn seed(&self) -> (seed: Option<i32>)
        ensures
            seed == self@.seed,
    {
        self.seed
    }

    /// The constraint on the form of the answer.
    pub fn response_format(&self) -> (format: Option<&ResponseFormat>)
        ensures
            format.deep_view() == self@.response_format,
    {
        self.response_format.as_ref()
    }

    /// The tools, where a list was given.
    pub fn tools(&self) -> (tools: Option<&[Tool]>)
        ensures
            tools.deep_view() == self@.tools,
    {
        match &self.tools {
            Some(list) => {
                let tools = list.as_slice();
                assert(tools.deep_view() =~= list.deep_view());
                Some(tools)
            },
            None => None,
        }
    }

    /// The tool-choice policy.
    pub fn tool_choice(&self) -> (choice: Option<&ToolChoice>)
        ensures
            choice.deep_view() == self@.tool_choice,
    {
        self.tool_choice.as_ref()
    }

    /// The end-user identifier.
    pub fn user(&self) -> (user: Option<&str>)
        ensures
            user.deep_view() == self@.user,
    {
        match &self.user {
            Some(user) => Some(user.as_str()),
            None => None,
        }
    }

    /// Whether log probabilities are asked for.
    pub fn logprobs(&self) -> (logprobs: bool)
        ensures
            logprobs == self@.logprobs,
    {
        self.logprobs
    }

    /// The number of alternatives per token.
    pub fn top_logprobs(&self) -> (top: Option<i32>)
        ensures
            top == self@.top_logprobs,
    {
        self.top_logprobs
    }

    /// The frequency penalty.
    pub fn frequency_penalty(&self) -> (penalty: Option<Float32>)
        ensures
            penalty == self@.frequency_penalty,
    {
        self.frequency_penalty
    }

    /// The presence penalty.
    pub fn presence_penalty(&self) -> (penalty: Option<Float32>)
        ensures
            penalty == self@.presence_penalty,
    {
        self.presence_penalty
    }

    /// Whether tool calls may run in parallel.
    pub fn parallel_tool_calls(&self) -> (parallel: Option<bool>)
        ensures
            parallel == self@.parallel_tool_calls,
    {
        self.parallel_tool_calls
    }

    /// The stored response that this request continues.
    pub fn previous_response_id(&self) -> (id: Option<&str>)
        ensures
            id.deep_view() == self@.previous_response_id,
    {
        match &self.previous_response_id {
            Some(id) => Some(id.as_str()),
            None => None,
        }
    }

    /// Whether the service stores the exchange.
    pub fn store_messages(&self) -> (store: bool)
        ensures
            store == self@.store_messages,
    {
        self.store_messages
    }

    /// Whether reasoning is returned encrypted.
    pub fn use_encrypted_content(&self) -> (encrypted: bool)
        ensures
            encrypted == self@.use_encrypted_content,
    {
        self.use_encrypted_content
    }

    /// The upper bound on agentic tool-calling turns; at least 1 where set.
    pub fn max_turns(&self) -> (turns: Option<i32>)
        ensures
            turns == self@.max_turns,
            turns matches Some(n) ==> n >= 1,
    {
        proof {
            use_type_invariant(self);
        }
        self.max_turns
    }

    /// The optional outputs asked for.
    pub fn include_options(&self) -> (options: &[IncludeOption])
        ensures
            options@ == self@.include_options,
    {
        self.include_options.as_slice()
    }

    /// A request with the given messages and nothing set.
    pub fn from_messages(messages: Vec<Message>) -> (request: Self)
        ensures
            request@ == (ChatRequestView { messages: messages.deep_view(), ..ChatRequestView::empty() }),
    {
        let request = ChatRequest {
            messages,
            model: None,
            max_tokens: None,
            temperature: None,
            top_p: None,
            stop: Vec::new(),
            reasoning_effort: None,
            search: None,
            seed: None,
            response_format: None,
            tools: None,
            tool_choice: None,
            user: None,
            logprobs: false,
            top_logprobs: None,
            frequency_penalty: None,
            presence_penalty: None,
            parallel_tool_calls: None,
            previous_response_id: None,
            store_messages: false,
            use_encrypted_content: false,
            max_turns: None,
            include_options: Vec::new(),
        };
        assert(request.stop.deep_view() =~= Seq::empty());
        assert(request.include_options@ =~= Seq::empty());
        request
    }

    /// A request with the given messages and the settings of `options`;
    /// everything else is unset. The temperature and the nucleus sampling
    /// mass are restricted to their intervals as the setters restrict them;
    /// the other settings are taken as they are.
    pub fn from_messages_with_options(messages: Vec<Message>, options: CompletionOptions) -> (request: Self)
        ensures
            request@ == (ChatRequestView {
                messages: messages.deep_view(),
                model: options@.model,
                temperature: match options@.temperature {
                    Some(temp) => ChatRequestView::empty().with_temperature(temp).temperature,
                    None => None,
                },
                max_tokens: options@.max_tokens,
                top_p: match options@.top_p {
                    Some(top_p) => ChatRequestView::empty().with_top_p(top_p).top_p,
                    None => None,
                },
                frequency_penalty: options@.frequency_penalty,
                presence_penalty: options@.presence_penalty,
                stop: options@.stop_sequences,
                tools: options@.tools,
                tool_choice: options@.tool_choice,
                response_format: options@.response_format,
                ..ChatRequestView::empty()
            }),
    {
        let temperature = match options.temperature {
            Some(temp) => Some(Self::restrict(temp, Float32::zero(), Float32::two())),
            None => None,
        };
        let top_p = match options.top_p {
            Some(top_p) => Some(Self::restrict(top_p, Float32::zero(), Float32::one())),
            None => None,
        };
        let request = ChatRequest {
            messages,
            model: options.model,
            max_tokens: options.max_tokens,
            temperature,
            top_p,
            stop: options.stop_sequences,
            reasoning_effort: None,
            search: None,
            seed: None,
            response_format: options.response_format,
            tools: options.tools,
            tool_choice: options.tool_choice,
            user: None,
            logprobs: false,
            top_logprobs: None,
            frequency_penalty: options.frequency_penalty,
            presence_penalty: options.presence_penalty,
            parallel_tool_calls: None,
            previous_response_id: None,
            store_messages: false,
            use_encrypted_content: false,
            max_turns: None,
            include_options: Vec::new(),
        };
        assert(request.include_options@ =~= Seq::empty());
        request
    }
}

impl Clone for ChatRequest {
    fn clone(&self) -> (copy: Self)
        ensures
            copy@ == self@,
    {
        proof {
            use_type_invariant(self);
        }
        let include_options = self.include_options.clone();
        assert(include_options@ =~= self.include_options@);
        ChatRequest {
            messages: copy_messages(&self.messages),
            model: copy_optional_string(&self.model),
            max_tokens: self.max_tokens,
            temperature: self.temperature,
            top_p: self.top_p,
            stop: copy_strings(&self.stop),
            reasoning_effort: self.reasoning_effort,
            search: match &self.search {
                Some(search) => Some(search.clone()),
                None => None,
            },
            seed: self.seed,
            response_format: match &self.response_format {
                Some(format) => Some(format.clone()),
                None => None,
            },
            tools: match &self.tools {
                Some(tools) => Some(copy_tools(tools)),
                None => None,
            },
            tool_choice: match &self.tool_choice {
                Some(choice) => Some(choice.clone()),
                None => None,
            },
            user: copy_optional_string(&self.user),
            logprobs: self.logprobs,
            top_logprobs: self.top_logprobs,
            frequency_penalty: self.frequency_penalty,
            presence_penalty: self.presence_penalty,
            parallel_tool_calls: self.parallel_tool_calls,
            previous_response_id: copy_optional_string(&self.previous_response_id),
            store_messages: self.store_messages,
            use_encrypted_content: self.use_encrypted_content,
            max_turns: self.max_turns,
            include_options,
        }
    }
}

impl Default for ChatRequest {
    fn default() -> (request: Self)
        ensures
            request@ == ChatRequestView::empty(),
    {
        ChatRequest::new()
    }
}

/// A temperature set through a setter lies between 0 and 2, whatever
/// was given: a number or not.
pub proof fn lemma_temperature_in_range(request: ChatRequestView, temp: Float32)
    ensures
        request.with_temperature(temp).temperature matches Some(stored) && (Float32 {
            bits: ZERO_BITS,
        }).le_spec(stored) && stored.le_spec(Float32 { bits: TWO_BITS }),
{
}

/// Setting the stored temperature again changes nothing: restricting twice
/// is restricting once.
pub proof fn lemma_temperature_idempotent(request: ChatRequestView, temp: Float32)
    ensures
        ({
            let once = request.with_temperature(temp);
            once.with_temperature(once.temperature->0) == once
        }),
{
}

/// A nucleus sampling mass set through the builder lies between 0 and 1,
/// whatever was given; and setting the stored mass again changes nothing.
pub proof fn lemma_top_p_in_range(request: ChatRequestView, top_p: Float32)
    ensures
        request.with_top_p(top_p).top_p matches Some(stored) && (Float32 { bits: ZERO_BITS }).le_spec(
            stored,
        ) && stored.le_spec(Float32 { bits: ONE_BITS }),
        ({
            let once = request.with_top_p(top_p);
            once.with_top_p(once.top_p->0) == once
        }),
{
}

/// Messages are only ever added at the end: after a message was added, the
/// messages that were there are still there, in their places, and the new
/// message is the last.
pub proof fn lemma_messages_append_only(request: ChatRequestView, message: MessageView)
    ensures
        request.with_message(message).messages.len() == request.messages.len() + 1,
        request.with_message(message).messages.take(request.messages.len() as int)
            == request.messages,
        request.with_message(message).messages.last() == message,
{
    assert(request.messages.push(message).take(request.messages.len() as int)
        =~= request.messages);
}

/// A bound of 1 is accepted and is stored as it is; 0 and every negative
/// bound are refused.
pub proof fn lemma_max_turns_bound(max_turns: i32)
    ensures
        ChatRequestView::allows_max_turns(1),
        max_turns <= 0 ==> !ChatRequestView::allows_max_turns(max_turns),
{
}

} // verus!
