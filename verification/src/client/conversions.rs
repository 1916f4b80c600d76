//! Conversions between the library's types and the wire schema.
//!
//! The request direction is a total mapping: every request has exactly one
//! wire form. The only value that is filled in is the model, which falls back
//! to the client's default; every other unset setting stays unset on the wire.
//! The response direction never fails on an absent optional part or on an
//! enumeration value that this library does not know.

use vstd::prelude::*;
use crate::copying::copy_bytes;
use crate::embedding::{
    EmbedEncodingFormat, EmbedInput, EmbedInputView, EmbedRequest, EmbedRequestView,
    EmbedResponse, EmbedResponseView, Embedding, EmbeddingUsage, EmbeddingView,
};
use crate::encoding::{base64_decoding, decode_error_text, decode_standard, display_decode_error};
use crate::error::{GrokError, GrokErrorView};
use crate::json::render;
use crate::number::{
    i32_as_u32, i32_as_usize, reinterpret_i32_as_u32, reinterpret_i32_as_usize,
    reinterpret_u32_as_i32, u32_as_i32, Float32, ONE_BITS, TWO_BITS, ZERO_BITS,
};
use crate::proto;
use crate::proto::{FormatType, IncludeOption, MessageRole};
use crate::request::{
    ChatRequest, ChatRequestView, ContentPart, ContentPartView, ImageDetail, Message,
    MessageContent, MessageContentView, MessageView, ReasoningEffort, ResponseFormat,
    ResponseFormatView, SearchConfig, SearchConfigView, SearchMode,
};
use crate::response::{
    ChatChunk, ChatChunkView, ChatResponse, ChatResponseView, FinishReason, FinishReasonView,
    LogProb, LogProbView, LogProbs, LogProbsView, TokenUsage, TopLogProb, TopLogProbView,
};
use crate::text::concat;
use crate::tools::{Tool, ToolCall, ToolCallView, ToolView};

verus! {

impl ImageDetail {
    /// The wire code of a detail level.
    pub open spec fn wire_code(self) -> i32 {
        match self {
            ImageDetail::Auto => proto::ImageDetail::DetailAuto.code_spec(),
            ImageDetail::Low => proto::ImageDetail::DetailLow.code_spec(),
            ImageDetail::High => proto::ImageDetail::DetailHigh.code_spec(),
        }
    }

    /// The wire code of an optional detail level: automatic when none is given.
    pub open spec fn optional_wire_code(detail: Option<ImageDetail>) -> i32 {
        match detail {
            Some(detail) => detail.wire_code(),
            None => proto::ImageDetail::DetailAuto.code_spec(),
        }
    }

    /// The wire code of the detail level.
    pub fn to_code(self) -> (code: i32)
        ensures
            code == self.wire_code(),
    {
        match self {
            ImageDetail::Auto => proto::ImageDetail::DetailAuto.code(),
            ImageDetail::Low => proto::ImageDetail::DetailLow.code(),
            ImageDetail::High => proto::ImageDetail::DetailHigh.code(),
        }
    }
}

impl ReasoningEffort {
    /// The wire code of a reasoning effort.
    pub open spec fn wire_code(self) -> i32 {
        match self {
            ReasoningEffort::Low => 1,
            ReasoningEffort::Medium => 2,
            ReasoningEffort::High => 3,
        }
    }

    /// The wire code of the reasoning effort.
    pub fn to_code(self) -> (code: i32)
        ensures
            code == self.wire_code(),
    {
        match self {
            ReasoningEffort::Low => 1,
            ReasoningEffort::Medium => 2,
            ReasoningEffort::High => 3,
        }
    }
}

impl SearchMode {
    /// The wire code of a search mode.
    pub open spec fn wire_code(self) -> i32 {
        match self {
            SearchMode::Off => 0,
            SearchMode::On => 1,
            SearchMode::Auto => 2,
        }
    }

    /// The wire code of the search mode.
    pub fn to_code(self) -> (code: i32)
        ensures
            code == self.wire_code(),
    {
        match self {
            SearchMode::Off => 0,
            SearchMode::On => 1,
            SearchMode::Auto => 2,
        }
    }
}

/// The wire part that holds a text.
pub open spec fn text_part(text: Seq<char>) -> proto::ContentView {
    proto::ContentView { content: Some(proto::content::ContentView::Text(text)) }
}

impl ContentPartView {
    /// The wire form of a part: the alternative of the same kind. An image
    /// without a detail level asks for the automatic one.
    pub open spec fn wire(self) -> proto::ContentView {
        match self {
            ContentPartView::Text(text) => text_part(text),
            ContentPartView::ImageUrl { url, detail } => proto::ContentView {
                content: Some(
                    proto::content::ContentView::ImageUrl(
                        proto::ImageUrlContentView {
                            image_url: url,
                            detail: ImageDetail::optional_wire_code(detail),
                        },
                    ),
                ),
            },
            ContentPartView::File { file_id } => proto::ContentView {
                content: Some(
                    proto::content::ContentView::File(proto::FileContentView { file_id: file_id }),
                ),
            },
        }
    }
}

impl MessageContentView {
    /// The wire parts of a content: one text part, or the parts of a
    /// multimodal content one for one and in the same order.
    pub open spec fn wire(self) -> Seq<proto::ContentView> {
        match self {
            MessageContentView::Text(text) => seq![text_part(text)],
            MessageContentView::MultiModal(parts) => Seq::new(
                parts.len(),
                |i: int| parts[i].wire(),
            ),
        }
    }
}

impl MessageView {
    /// The wire role of a message.
    pub open spec fn wire_role(self) -> MessageRole {
        match self {
            MessageView::System(_) => MessageRole::RoleSystem,
            MessageView::User(_) => MessageRole::RoleUser,
            MessageView::Assistant(_) => MessageRole::RoleAssistant,
            MessageView::Tool { .. } => MessageRole::RoleTool,
        }
    }

    /// The wire form of a message: its role, and its content as wire parts.
    /// System, assistant and tool-result messages are one text part. The call
    /// identifier of a tool result is not sent: the service goes by position.
    pub open spec fn wire(self) -> proto::MessageView {
        proto::MessageView {
            role: self.wire_role().code_spec(),
            content: match self {
                MessageView::System(text) => seq![text_part(text)],
                MessageView::User(content) => content.wire(),
                MessageView::Assistant(text) => seq![text_part(text)],
                MessageView::Tool { tool_call_id, content } => seq![text_part(content)],
            },
        }
    }
}

impl SearchConfigView {
    /// The wire form of the search settings: mode and result bound.
    pub open spec fn wire(self) -> proto::SearchParametersView {
        proto::SearchParametersView {
            mode: self.mode.wire_code(),
            max_search_results: match self.max_results {
                Some(n) => Some(reinterpret_u32_as_i32(n)),
                None => None,
            },
        }
    }
}

impl ResponseFormatView {
    /// The wire form of a response format: the code of the format, and the
    /// schema text where the format has one.
    pub open spec fn wire(self) -> proto::ResponseFormatView {
        match self {
            ResponseFormatView::Text => proto::ResponseFormatView {
                format_type: FormatType::Text.code_spec(),
                schema: None,
            },
            ResponseFormatView::JsonObject => proto::ResponseFormatView {
                format_type: FormatType::JsonObject.code_spec(),
                schema: None,
            },
            ResponseFormatView::JsonSchema(schema) => proto::ResponseFormatView {
                format_type: FormatType::JsonSchema.code_spec(),
                schema: Some(schema),
            },
        }
    }
}

/// The wire forms of a list of tools, one for one and in the same order.
pub open spec fn tools_wire(tools: Seq<ToolView>) -> Seq<proto::ToolView> {
    Seq::new(tools.len(), |i: int| tools[i].wire())
}

/// The wire forms of a list of messages, one for one and in the same order.
pub open spec fn messages_wire(messages: Seq<MessageView>) -> Seq<proto::MessageView> {
    Seq::new(messages.len(), |i: int| messages[i].wire())
}

/// The wire codes of a list of optional outputs, one for one and in the same order.
pub open spec fn include_codes(options: Seq<IncludeOption>) -> Seq<i32> {
    Seq::new(options.len(), |i: int| options[i].code_spec())
}

impl ChatRequestView {
    /// The wire form of a request, for a client whose default model is
    /// `default_model`.
    ///
    /// The model falls back to the default; that is the only value filled in.
    /// An unset user goes out as the empty text, which is how the wire writes
    /// "unset" for a text, and a missing tool list as the empty list.
    pub open spec fn wire(self, default_model: Seq<char>) -> proto::GetCompletionsRequestView {
        proto::GetCompletionsRequestView {
            messages: messages_wire(self.messages),
            model: match self.model {
                Some(model) => model,
                None => default_model,
            },
            max_tokens: match self.max_tokens {
                Some(n) => Some(reinterpret_u32_as_i32(n)),
                None => None,
            },
            temperature: self.temperature,
            top_p: self.top_p,
            stop: self.stop,
            seed: self.seed,
            tools: match self.tools {
                Some(tools) => tools_wire(tools),
                None => Seq::empty(),
            },
            tool_choice: match self.tool_choice {
                Some(choice) => Some(choice.wire()),
                None => None,
            },
            reasoning_effort: match self.reasoning_effort {
                Some(effort) => Some(effort.wire_code()),
                None => None,
            },
            search_parameters: match self.search {
                Some(search) => Some(search.wire()),
                None => None,
            },
            response_format: match self.response_format {
                Some(format) => Some(format.wire()),
                None => None,
            },
            user: match self.user {
                Some(user) => user,
                None => Seq::empty(),
            },
            logprobs: self.logprobs,
            top_logprobs: self.top_logprobs,
            frequency_penalty: self.frequency_penalty,
            presence_penalty: self.presence_penalty,
            parallel_tool_calls: self.parallel_tool_calls,
            previous_response_id: self.previous_response_id,
            store_messages: self.store_messages,
            use_encrypted_content: self.use_encrypted_content,
            max_turns: self.max_turns,
            include_options: include_codes(self.include_options),
        }
    }
}

/// Converts a request to its wire form. Always succeeds.
pub fn to_proto_request(default_model: &str, request: &ChatRequest) -> (wire: Result<
    proto::GetCompletionsRequest,
    GrokError,
>)
    ensures
        wire matches Ok(message) && message@ == request@.wire(default_model@),
{
    Ok(request_to_proto(default_model, request))
}

/// The wire form of a request, for a client with the given default model.
///
/// No value out of range goes out: a temperature on the wire lies between 0
/// and 2, a nucleus sampling mass between 0 and 1, and a turn bound is at
/// least 1.
pub fn request_to_proto(default_model: &str, request: &ChatRequest) -> (message:
    proto::GetCompletionsRequest)
    ensures
        message@ == request@.wire(default_model@),
        message@.temperature matches Some(temp) ==> (Float32 { bits: ZERO_BITS }).le_spec(temp)
            && temp.le_spec(Float32 { bits: TWO_BITS }),
        message@.top_p matches Some(top_p) ==> (Float32 { bits: ZERO_BITS }).le_spec(top_p)
            && top_p.le_spec(Float32 { bits: ONE_BITS }),
        message@.max_turns matches Some(turns) ==> turns >= 1,
{
    let messages = messages_to_proto(request.messages());
    let model = match request.model() {
        Some(model) => model.to_string(),
        None => default_model.to_string(),
    };
    let max_tokens = match request.max_tokens() {
        Some(tokens) => Some(u32_as_i32(tokens)),
        None => None,
    };
    let tools = match request.tools() {
        Some(tools) => tools_to_proto(tools),
        None => {
            let none: Vec<proto::Tool> = Vec::new();
            assert(none.deep_view() =~= Seq::empty());
            none
        },
    };
    let tool_choice = match request.tool_choice() {
        Some(choice) => Some(choice.to_proto()),
        None => None,
    };
    let reasoning_effort = match request.reasoning_effort() {
        Some(effort) => Some(effort.to_code()),
        None => None,
    };
    let search_parameters = match request.search_config() {
        Some(search) => Some(search_config_to_proto(search)),
        None => None,
    };
    let response_format = match request.response_format() {
        Some(format) => Some(response_format_to_proto(format)),
        None => None,
    };
    let user = match request.user() {
        Some(user) => user.to_string(),
        None => String::new(),
    };
    let previous_response_id = match request.previous_response_id() {
        Some(id) => Some(id.to_string()),
        None => None,
    };
    let stop = strings_of(request.stop_sequences());
    let include_options = include_options_to_proto(request.include_options());
    let message = proto::GetCompletionsRequest {
        messages,
        model,
        max_tokens,
        temperature: request.temperature(),
        top_p: request.top_p(),
        stop,
        seed: request.seed(),
        tools,
        tool_choice,
        reasoning_effort,
        search_parameters,
        response_format,
        user,
        logprobs: request.logprobs(),
        top_logprobs: request.top_logprobs(),
        frequency_penalty: request.frequency_penalty(),
        presence_penalty: request.presence_penalty(),
        parallel_tool_calls: request.parallel_tool_calls(),
        previous_response_id,
        store_messages: request.store_messages(),
        use_encrypted_content: request.use_encrypted_content(),
        max_turns: request.max_turns(),
        include_options,
    };
    assert(message@.user =~= request@.wire(default_model@).user);
    message
}

/// A copy of a slice of strings.
fn strings_of(list: &[String]) -> (copy: Vec<String>)
    ensures
        copy.deep_view() == list.deep_view(),
{
    let mut copy: Vec<String> = Vec::new();
    let mut i: usize = 0;
    while i < list.len()
        invariant
            i <= list@.len(),
            copy@.len() == i,
            forall|j: int| 0 <= j < i ==> (#[trigger] copy@[j])@ == list@[j]@,
        decreases list@.len() - i,
    {
        copy.push(list[i].clone());
        i += 1;
    }
    assert(copy.deep_view() =~= list.deep_view());
    copy
}

/// Converts the messages of a conversation, keeping their order.
pub fn messages_to_proto(messages: &[Message]) -> (wire: Vec<proto::Message>)
    ensures
        wire.deep_view() == messages_wire(messages.deep_view()),
{
    let mut wire: Vec<proto::Message> = Vec::new();
    let mut i: usize = 0;
    while i < messages.len()
        invariant
            i <= messages@.len(),
            wire@.len() == i,
            forall|j: int| 0 <= j < i ==> (#[trigger] wire@[j])@ == messages@[j]@.wire(),
        decreases messages@.len() - i,
    {
        wire.push(message_to_proto(&messages[i]));
        i += 1;
    }
    assert(wire.deep_view() =~= messages_wire(messages.deep_view()));
    wire
}

/// Converts a list of tools, keeping their order.
pub fn tools_to_proto(tools: &[Tool]) -> (wire: Vec<proto::Tool>)
    ensures
        wire.deep_view() == tools_wire(tools.deep_view()),
{
    let mut wire: Vec<proto::Tool> = Vec::new();
    let mut i: usize = 0;
    while i < tools.len()
        invariant
            i <= tools@.len(),
            wire@.len() == i,
            forall|j: int| 0 <= j < i ==> (#[trigger] wire@[j])@ == tools@[j]@.wire(),
        decreases tools@.len() - i,
    {
        wire.push(tools[i].to_proto());
        i += 1;
    }
    assert(wire.deep_view() =~= tools_wire(tools.deep_view()));
    wire
}

/// Converts a list of optional outputs to their wire codes, keeping their order.
pub fn include_options_to_proto(options: &[IncludeOption]) -> (codes: Vec<i32>)
    ensures
        codes@ == include_codes(options@),
{
    let mut codes: Vec<i32> = Vec::new();
    let mut i: usize = 0;
    while i < options.len()
        invariant
            i <= options@.len(),
            codes@.len() == i,
            forall|j: int| 0 <= j < i ==> #[trigger] codes@[j] == options@[j].code_spec(),
        decreases options@.len() - i,
    {
        codes.push(options[i].code());
        i += 1;
    }
    assert(codes@ =~= include_codes(options@));
    codes
}

/// Converts live search settings to their wire form.
pub fn search_config_to_proto(search: &SearchConfig) -> (wire: proto::SearchParameters)
    ensures
        wire@ == search@.wire(),
{
    proto::SearchParameters {
        mode: search.mode.to_code(),
        max_search_results: match search.max_results {
            Some(n) => Some(u32_as_i32(n)),
            None => None,
        },
    }
}

/// Converts a response format to its wire form; a schema goes out as its
/// compact text.
pub fn response_format_to_proto(format: &ResponseFormat) -> (wire: proto::ResponseFormat)
    ensures
        wire@ == format@.wire(),
{
    match format {
        ResponseFormat::Text => proto::ResponseFormat {
            format_type: FormatType::Text.code(),
            schema: None,
        },
        ResponseFormat::JsonObject => proto::ResponseFormat {
            format_type: FormatType::JsonObject.code(),
            schema: None,
        },
        ResponseFormat::JsonSchema(schema) => proto::ResponseFormat {
            format_type: FormatType::JsonSchema.code(),
            schema: Some(render(schema)),
        },
    }
}

/// The wire part that holds a copy of the given text.
fn text_content(text: &String) -> (part: Vec<proto::Content>)
    ensures
        part.deep_view() == seq![text_part(text@)],
{
    let mut part: Vec<proto::Content> = Vec::new();
    part.push(proto::Content { content: Some(proto::content::Content::Text(text.clone())) });
    assert(part.deep_view() =~= seq![text_part(text@)]);
    part
}

/// Converts a message to its wire form.
pub fn message_to_proto(message: &Message) -> (wire: proto::Message)
    ensures
        wire@ == message@.wire(),
{
    match message {
        Message::System(text) => proto::Message {
            role: MessageRole::RoleSystem.code(),
            content: text_content(text),
        },
        Message::User(content) => proto::Message {
            role: MessageRole::RoleUser.code(),
            content: message_content_to_proto(content),
        },
        Message::Assistant(text) => proto::Message {
            role: MessageRole::RoleAssistant.code(),
            content: text_content(text),
        },
        Message::Tool { tool_call_id: _, content } => proto::Message {
            role: MessageRole::RoleTool.code(),
            content: text_content(content),
        },
    }
}

/// Converts one part of a multimodal message to its wire form.
pub fn content_part_to_proto(part: &ContentPart) -> (wire: proto::Content)
    ensures
        wire@ == part@.wire(),
{
    match part {
        ContentPart::Text(text) => proto::Content {
            content: Some(proto::content::Content::Text(text.clone())),
        },
        ContentPart::ImageUrl { url, detail } => {
            let detail_value = match detail {
                Some(detail) => detail.to_code(),
                None => proto::ImageDetail::DetailAuto.code(),
            };
            proto::Content {
                content: Some(
                    proto::content::Content::ImageUrl(
                        proto::ImageUrlContent { image_url: url.clone(), detail: detail_value },
                    ),
                ),
            }
        },
        ContentPart::File { file_id } => proto::Content {
            content: Some(
                proto::content::Content::File(proto::FileContent { file_id: file_id.clone() }),
            ),
        },
    }
}

/// Converts the content of a user message to wire parts. The parts of a
/// multimodal content keep their order exactly: the order is the layout of
/// the prompt.
pub fn message_content_to_proto(content: &MessageContent) -> (wire: Vec<proto::Content>)
    ensures
        wire.deep_view() == content@.wire(),
{
    match content {
        MessageContent::Text(text) => text_content(text),
        MessageContent::MultiModal(parts) => {
            let mut wire: Vec<proto::Content> = Vec::new();
            let mut i: usize = 0;
            while i < parts.len()
                invariant
                    i <= parts@.len(),
                    wire@.len() == i,
                    forall|j: int| 0 <= j < i ==> (#[trigger] wire@[j])@ == parts@[j]@.wire(),
                decreases parts@.len() - i,
            {
                wire.push(content_part_to_proto(&parts[i]));
                i += 1;
            }
            assert(wire.deep_view() =~= content@.wire());
            wire
        },
    }
}

impl FinishReasonView {
    /// The reason that a wire code stands for.
    ///
    /// The table is fixed: 3 is a stop, 1 and 2 are the two length limits,
    /// 4 is a request for tool calls, and 5, the time limit, is an error with
    /// a fixed message. Every other code stands for `Unknown`.
    pub open spec fn from_code(code: i32) -> FinishReasonView {
        if code == 3 {
            FinishReasonView::Stop
        } else if code == 1 || code == 2 {
            FinishReasonView::Length
        } else if code == 4 {
            FinishReasonView::ToolCalls
        } else if code == 5 {
            FinishReasonView::Error("Time limit reached"@)
        } else {
            FinishReasonView::Unknown
        }
    }

    /// The reason that a chunk reports: none while the code is 0, which
    /// means that streaming goes on, else the reason the code stands for.
    pub open spec fn from_chunk_code(code: i32) -> Option<FinishReasonView> {
        if code == 0 {
            None
        } else {
            Some(Self::from_code(code))
        }
    }
}

/// Decodes a finish reason from its wire code. Total: a code outside the
/// table decodes to `Unknown`.
pub fn parse_finish_reason_static(reason: i32) -> (decoded: FinishReason)
    ensures
        decoded@ == FinishReasonView::from_code(reason),
{
    if reason == 3 {
        FinishReason::Stop
    } else if reason == 1 || reason == 2 {
        FinishReason::Length
    } else if reason == 4 {
        FinishReason::ToolCalls
    } else if reason == 5 {
        FinishReason::Error("Time limit reached".to_string())
    } else {
        FinishReason::Unknown
    }
}

/// A text of the wire, where the empty text means that there is none.
pub open spec fn present(text: Seq<char>) -> Option<Seq<char>> {
    if text.len() == 0 {
        None
    } else {
        Some(text)
    }
}

/// A copy of a wire text, or `None` for the empty text.
pub fn non_empty(text: &String) -> (value: Option<String>)
    ensures
        value.deep_view() == present(text@),
{
    if text.as_str().is_empty() {
        None
    } else {
        Some(text.clone())
    }
}

/// The token accounting that a wire message reports: the three counters,
/// or all zero where the message has no accounting.
pub open spec fn usage_from_wire(usage: Option<proto::SamplingUsageView>) -> TokenUsage {
    match usage {
        Some(usage) => TokenUsage {
            prompt_tokens: reinterpret_i32_as_u32(usage.prompt_tokens),
            completion_tokens: reinterpret_i32_as_u32(usage.completion_tokens),
            total_tokens: reinterpret_i32_as_u32(usage.total_tokens),
        },
        None => TokenUsage { prompt_tokens: 0, completion_tokens: 0, total_tokens: 0 },
    }
}

/// Reads the token accounting of a wire message.
pub fn usage_from_proto(usage: &Option<proto::SamplingUsage>) -> (decoded: TokenUsage)
    ensures
        decoded == usage_from_wire(usage.deep_view()),
{
    match usage {
        Some(usage) => TokenUsage {
            prompt_tokens: i32_as_u32(usage.prompt_tokens),
            completion_tokens: i32_as_u32(usage.completion_tokens),
            total_tokens: i32_as_u32(usage.total_tokens),
        },
        None => TokenUsage { prompt_tokens: 0, completion_tokens: 0, total_tokens: 0 },
    }
}

/// The tool calls that a list of wire messages stands for: each message
/// that carries a call, decoded, in the order of the list. Messages without
/// a call are passed over.
pub open spec fn tool_calls_from_wire(calls: Seq<proto::ToolCallView>) -> Seq<ToolCallView>
    decreases calls.len(),
{
    if calls.len() == 0 {
        Seq::empty()
    } else {
        let earlier = tool_calls_from_wire(calls.drop_last());
        match ToolCallView::from_wire(calls.last()) {
            Some(call) => earlier.push(call),
            None => earlier,
        }
    }
}

/// Decodes the tool calls of a wire message.
pub fn tool_calls_from_proto(calls: &Vec<proto::ToolCall>) -> (decoded: Vec<ToolCall>)
    ensures
        decoded.deep_view() == tool_calls_from_wire(calls.deep_view()),
{
    let ghost wire = calls.deep_view();
    let mut decoded: Vec<ToolCall> = Vec::new();
    let mut i: usize = 0;
    assert(decoded.deep_view() =~= Seq::empty());
    assert(wire.take(0) =~= Seq::empty());
    while i < calls.len()
        invariant
            i <= calls@.len(),
            wire == calls.deep_view(),
            decoded.deep_view() == tool_calls_from_wire(wire.take(i as int)),
        decreases calls@.len() - i,
    {
        let ghost before = decoded.deep_view();
        assert(wire.take(i + 1).drop_last() =~= wire.take(i as int));
        assert(wire.take(i + 1).last() == calls@[i as int]@);
        match ToolCall::from_proto_ref(&calls[i]) {
            Some(call) => {
                decoded.push(call);
                assert(decoded.deep_view() =~= before.push(call@));
            },
            None => {},
        }
        i += 1;
    }
    assert(wire.take(calls@.len() as int) =~= wire);
    decoded
}

impl TopLogProbView {
    /// The alternative that a wire message stands for: the same three values.
    pub open spec fn from_wire(wire: proto::TopLogProbView) -> TopLogProbView {
        TopLogProbView { token: wire.token, logprob: wire.logprob, bytes: wire.bytes }
    }
}

impl LogProbView {
    /// The log probability that a wire message stands for, with its
    /// alternatives in the same order.
    pub open spec fn from_wire(wire: proto::LogProbView) -> LogProbView {
        LogProbView {
            token: wire.token,
            logprob: wire.logprob,
            bytes: wire.bytes,
            top_logprobs: Seq::new(
                wire.top_logprobs.len(),
                |i: int| TopLogProbView::from_wire(wire.top_logprobs[i]),
            ),
        }
    }
}

impl LogProbsView {
    /// The log probabilities that a wire message stands for, token by token
    /// in the same order.
    pub open spec fn from_wire(wire: proto::LogProbsView) -> LogProbsView {
        LogProbsView {
            content: Seq::new(wire.content.len(), |i: int| LogProbView::from_wire(wire.content[i])),
        }
    }

    /// The log probabilities of an optional wire message.
    pub open spec fn from_optional_wire(wire: Option<proto::LogProbsView>) -> Option<LogProbsView> {
        match wire {
            Some(wire) => Some(Self::from_wire(wire)),
            None => None,
        }
    }
}

/// Decodes the log probability of one token.
pub fn logprob_from_proto(wire: &proto::LogProb) -> (decoded: LogProb)
    ensures
        decoded@ == LogProbView::from_wire(wire@),
{
    let mut top_logprobs: Vec<TopLogProb> = Vec::new();
    let mut i: usize = 0;
    while i < wire.top_logprobs.len()
        invariant
            i <= wire.top_logprobs@.len(),
            top_logprobs@.len() == i,
            forall|j: int|
                0 <= j < i ==> (#[trigger] top_logprobs@[j])@ == TopLogProbView::from_wire(
                    wire.top_logprobs@[j]@,
                ),
        decreases wire.top_logprobs@.len() - i,
    {
        let top = &wire.top_logprobs[i];
        top_logprobs.push(
            TopLogProb {
                token: top.token.clone(),
                logprob: top.logprob,
                bytes: copy_bytes(&top.bytes),
            },
        );
        i += 1;
    }
    assert(top_logprobs.deep_view() =~= LogProbView::from_wire(wire@).top_logprobs);
    LogProb {
        token: wire.token.clone(),
        logprob: wire.logprob,
        bytes: copy_bytes(&wire.bytes),
        top_logprobs,
    }
}

/// Decodes the log probabilities of a generated text.
pub fn logprobs_from_proto(wire: &proto::LogProbs) -> (decoded: LogProbs)
    ensures
        decoded@ == LogProbsView::from_wire(wire@),
{
    let mut content: Vec<LogProb> = Vec::new();
    let mut i: usize = 0;
    while i < wire.content.len()
        invariant
            i <= wire.content@.len(),
            content@.len() == i,
            forall|j: int|
                0 <= j < i ==> (#[trigger] content@[j])@ == LogProbView::from_wire(
                    wire.content@[j]@,
                ),
        decreases wire.content@.len() - i,
    {
        content.push(logprob_from_proto(&wire.content[i]));
        i += 1;
    }
    assert(content.deep_view() =~= LogProbsView::from_wire(wire@).content);
    LogProbs { content }
}

/// Decodes optional log probabilities.
pub fn optional_logprobs_from_proto(wire: &Option<proto::LogProbs>) -> (decoded: Option<LogProbs>)
    ensures
        decoded.deep_view() == LogProbsView::from_optional_wire(wire.deep_view()),
{
    match wire {
        Some(wire) => Some(logprobs_from_proto(wire)),
        None => None,
    }
}

/// The seconds of an optional timestamp.
pub open spec fn seconds_of(time: Option<prost_types::Timestamp>) -> Option<i64> {
    match time {
        Some(time) => Some(time.seconds),
        None => None,
    }
}

impl ChatResponseView {
    /// The response that a wire message stands for, or the reason why it
    /// stands for none.
    ///
    /// A message without outputs and a first output without a message are
    /// the two ways in which a wire message can break the protocol. Apart
    /// from them every message has a response: the first output decides, an
    /// empty reasoning text or fingerprint means that there is none, and
    /// missing accounting counts as zero.
    pub open spec fn from_wire(wire: proto::GetChatCompletionResponseView) -> Result<
        ChatResponseView,
        GrokErrorView,
    > {
        if wire.outputs.len() == 0 {
            Err(GrokErrorView::InvalidRequest("Response has no outputs"@))
        } else {
            match wire.outputs[0].message {
                None => Err(GrokErrorView::InvalidRequest("Output has no message"@)),
                Some(message) => Ok(
                    ChatResponseView {
                        request_id: wire.id,
                        content: message.content,
                        finish_reason: FinishReasonView::from_code(wire.outputs[0].finish_reason),
                        model: wire.model,
                        usage: usage_from_wire(wire.usage),
                        citations: wire.citations,
                        tool_calls: tool_calls_from_wire(message.tool_calls),
                        reasoning_content: present(message.reasoning_content),
                        logprobs: LogProbsView::from_optional_wire(wire.outputs[0].logprobs),
                        created: seconds_of(wire.created),
                        system_fingerprint: present(wire.system_fingerprint),
                    },
                ),
            }
        }
    }
}

/// Assembles a response from its wire message.
///
/// Fails exactly when the message has no outputs or its first output has no
/// message, and says which.
pub fn proto_to_response(proto: proto::GetChatCompletionResponse) -> (response: Result<
    ChatResponse,
    GrokError,
>)
    ensures
        match response {
            Ok(response) => ChatResponseView::from_wire(proto@) == Ok::<
                ChatResponseView,
                GrokErrorView,
            >(response@),
            Err(error) => ChatResponseView::from_wire(proto@) == Err::<
                ChatResponseView,
                GrokErrorView,
            >(error@),
        },
{
    if proto.outputs.len() == 0 {
        return Err(GrokError::InvalidRequest("Response has no outputs".to_string()));
    }
    let output = &proto.outputs[0];
    let message = match &output.message {
        Some(message) => message,
        None => {
            return Err(GrokError::InvalidRequest("Output has no message".to_string()));
        },
    };
    let content = message.content.clone();
    let reasoning_content = non_empty(&message.reasoning_content);
    let tool_calls = tool_calls_from_proto(&message.tool_calls);
    let finish_reason = parse_finish_reason_static(output.finish_reason);
    let usage = usage_from_proto(&proto.usage);
    let logprobs = optional_logprobs_from_proto(&output.logprobs);
    let created = match proto.created {
        Some(time) => Some(time.seconds),
        None => None,
    };
    let system_fingerprint = non_empty(&proto.system_fingerprint);
    Ok(
        ChatResponse {
            request_id: proto.id,
            content,
            finish_reason,
            model: proto.model,
            usage,
            citations: proto.citations,
            tool_calls,
            reasoning_content,
            logprobs,
            created,
            system_fingerprint,
        },
    )
}

impl ChatChunkView {
    /// The chunk that a wire message stands for. Every wire message stands
    /// for one: the first output decides, and what is absent is empty or none.
    ///
    /// The finish reason is set only when the wire code is not 0: code 0
    /// means that streaming goes on.
    pub open spec fn from_wire(wire: proto::GetChatCompletionChunkView) -> ChatChunkView {
        let delta = if wire.outputs.len() == 0 {
            None
        } else {
            wire.outputs[0].delta
        };
        ChatChunkView {
            delta: match delta {
                Some(delta) => delta.content,
                None => Seq::empty(),
            },
            finish_reason: if wire.outputs.len() == 0 {
                None
            } else {
                FinishReasonView::from_chunk_code(wire.outputs[0].finish_reason)
            },
            cumulative_usage: usage_from_wire(wire.usage),
            reasoning_delta: match delta {
                Some(delta) => present(delta.reasoning_content),
                None => None,
            },
            tool_calls: match delta {
                Some(delta) => tool_calls_from_wire(delta.tool_calls),
                None => Seq::empty(),
            },
            logprobs: if wire.outputs.len() == 0 {
                None
            } else {
                LogProbsView::from_optional_wire(wire.outputs[0].logprobs)
            },
            citations: wire.citations,
        }
    }
}

/// Assembles a chunk from its wire message. Always succeeds.
pub fn proto_chunk_to_chunk(chunk: proto::GetChatCompletionChunk) -> (assembled: Result<
    ChatChunk,
    GrokError,
>)
    ensures
        assembled matches Ok(assembled) && assembled@ == ChatChunkView::from_wire(chunk@),
{
    let cumulative_usage = usage_from_proto(&chunk.usage);
    if chunk.outputs.len() == 0 {
        let tool_calls: Vec<ToolCall> = Vec::new();
        assert(tool_calls.deep_view() =~= Seq::empty());
        return Ok(
            ChatChunk {
                delta: String::new(),
                finish_reason: None,
                cumulative_usage,
                reasoning_delta: None,
                tool_calls,
                logprobs: None,
                citations: chunk.citations,
            },
        );
    }
    let output = &chunk.outputs[0];
    let finish_reason = if output.finish_reason != 0 {
        Some(parse_finish_reason_static(output.finish_reason))
    } else {
        None
    };
    let logprobs = optional_logprobs_from_proto(&output.logprobs);
    let assembled = match &output.delta {
        Some(delta) => ChatChunk {
            delta: delta.content.clone(),
            finish_reason,
            cumulative_usage,
            reasoning_delta: non_empty(&delta.reasoning_content),
            tool_calls: tool_calls_from_proto(&delta.tool_calls),
            logprobs,
            citations: chunk.citations,
        },
        None => {
            let tool_calls: Vec<ToolCall> = Vec::new();
            assert(tool_calls.deep_view() =~= Seq::empty());
            ChatChunk {
                delta: String::new(),
                finish_reason,
                cumulative_usage,
                reasoning_delta: None,
                tool_calls,
                logprobs,
                citations: chunk.citations,
            }
        },
    };
    assert(assembled@.delta =~= ChatChunkView::from_wire(chunk@).delta);
    Ok(assembled)
}

/// A wire code outside the table of finish reasons decodes to `Unknown`.
pub proof fn lemma_unknown_finish_reason(code: i32)
    requires
        code < 1 || code > 5,
    ensures
        FinishReasonView::from_code(code) == FinishReasonView::Unknown,
{
}

/// Assembly fails with "no outputs" on a message without outputs, and with
/// "no message" on a message whose first output has no message. On every
/// other message it succeeds.
pub proof fn lemma_response_assembly_failures(wire: proto::GetChatCompletionResponseView)
    ensures
        wire.outputs.len() == 0 ==> ChatResponseView::from_wire(wire) == Err::<
            ChatResponseView,
            GrokErrorView,
        >(GrokErrorView::InvalidRequest("Response has no outputs"@)),
        wire.outputs.len() > 0 && wire.outputs[0].message is None ==> ChatResponseView::from_wire(
            wire,
        ) == Err::<ChatResponseView, GrokErrorView>(
            GrokErrorView::InvalidRequest("Output has no message"@),
        ),
        wire.outputs.len() > 0 && wire.outputs[0].message is Some ==> ChatResponseView::from_wire(
            wire,
        ) is Ok,
{
}

impl EmbedEncodingFormat {
    /// The wire code of an encoding.
    pub open spec fn wire_code(self) -> i32 {
        match self {
            EmbedEncodingFormat::Float => proto::EmbedEncodingFormat::FormatFloat.code_spec(),
            EmbedEncodingFormat::Base64 => proto::EmbedEncodingFormat::FormatBase64.code_spec(),
        }
    }
}

impl EmbedInputView {
    /// The wire form of an input: a text or an image with its detail level.
    pub open spec fn wire(self) -> proto::EmbedInputView {
        proto::EmbedInputView {
            input: Some(
                match self {
                    EmbedInputView::Text(text) => proto::embed_input::InputView::String(text),
                    EmbedInputView::Image { url, detail } => proto::embed_input::InputView::ImageUrl(
                        proto::ImageUrlContentView { image_url: url, detail: detail.wire_code() },
                    ),
                },
            ),
        }
    }
}

impl EmbedRequestView {
    /// The wire form of an embedding request: the inputs one for one and in
    /// the same order, and the empty text for an unset user.
    pub open spec fn wire(self) -> proto::EmbedRequestView {
        proto::EmbedRequestView {
            input: Seq::new(self.inputs.len(), |i: int| self.inputs[i].wire()),
            model: self.model,
            encoding_format: self.encoding_format.wire_code(),
            user: match self.user {
                Some(user) => user,
                None => Seq::empty(),
            },
        }
    }
}

/// Converts an embedding request to its wire form.
pub fn embed_request_to_proto(request: &EmbedRequest) -> (wire: proto::EmbedRequest)
    ensures
        wire@ == request@.wire(),
{
    let mut input: Vec<proto::EmbedInput> = Vec::new();
    let mut i: usize = 0;
    while i < request.inputs.len()
        invariant
            i <= request.inputs@.len(),
            input@.len() == i,
            forall|j: int| 0 <= j < i ==> (#[trigger] input@[j])@ == request.inputs@[j]@.wire(),
        decreases request.inputs@.len() - i,
    {
        let one = match &request.inputs[i] {
            EmbedInput::Text(text) => proto::EmbedInput {
                input: Some(proto::embed_input::Input::String(text.clone())),
            },
            EmbedInput::Image { url, detail } => proto::EmbedInput {
                input: Some(
                    proto::embed_input::Input::ImageUrl(
                        proto::ImageUrlContent { image_url: url.clone(), detail: detail.to_code() },
                    ),
                ),
            },
        };
        input.push(one);
        i += 1;
    }
    assert(input.deep_view() =~= request@.wire().input);
    let user = match &request.user {
        Some(user) => user.clone(),
        None => String::new(),
    };
    let wire = proto::EmbedRequest {
        input,
        model: request.model.clone(),
        encoding_format: match request.encoding_format {
            EmbedEncodingFormat::Float => proto::EmbedEncodingFormat::FormatFloat.code(),
            EmbedEncodingFormat::Base64 => proto::EmbedEncodingFormat::FormatBase64.code(),
        },
        user,
    };
    assert(wire@.user =~= request@.wire().user);
    wire
}

/// The binary32 number whose little-endian bytes are the four given bytes.
pub open spec fn float_of_le_bytes(b0: u8, b1: u8, b2: u8, b3: u8) -> Float32 {
    Float32 { bits: (b0 + b1 * 0x100 + b2 * 0x1_0000 + b3 * 0x100_0000) as u32 }
}

/// The numbers that a byte string holds as consecutive little-endian
/// binary32 values. Meant for a length that is a multiple of 4.
pub open spec fn floats_of_le_bytes(bytes: Seq<u8>) -> Seq<Float32> {
    Seq::new(
        bytes.len() / 4,
        |i: int|
            float_of_le_bytes(bytes[4 * i], bytes[4 * i + 1], bytes[4 * i + 2], bytes[4 * i + 3]),
    )
}

/// What decoded embedding bytes stand for: the numbers they hold, or an
/// error when the length is not a multiple of 4.
pub open spec fn embedding_of_bytes(bytes: Seq<u8>) -> Result<Seq<Float32>, GrokErrorView> {
    if bytes.len() % 4 != 0 {
        Err(GrokErrorView::InvalidRequest("embedding byte length not divisible by 4"@))
    } else {
        Ok(floats_of_le_bytes(bytes))
    }
}

/// What a base64 embedding stands for: an error that names the decoding
/// error when the text is not valid base64, else what the decoded bytes
/// stand for.
pub open spec fn embedding_of_base64(text: Seq<char>) -> Result<Seq<Float32>, GrokErrorView> {
    match base64_decoding(text) {
        Err(error) => Err(
            GrokErrorView::InvalidRequest("invalid base64 embedding: "@ + decode_error_text(error)),
        ),
        Ok(bytes) => embedding_of_bytes(bytes),
    }
}

/// Reads decoded embedding bytes as little-endian binary32 numbers.
///
/// Fails exactly when the number of bytes is not a multiple of 4.
pub fn floats_from_le_bytes(bytes: &[u8]) -> (vector: Result<Vec<Float32>, GrokError>)
    ensures
        match vector {
            Ok(vector) => embedding_of_bytes(bytes@) == Ok::<Seq<Float32>, GrokErrorView>(vector@),
            Err(error) => embedding_of_bytes(bytes@) == Err::<Seq<Float32>, GrokErrorView>(error@),
        },
{
    if bytes.len() % 4 != 0 {
        return Err(
            GrokError::InvalidRequest("embedding byte length not divisible by 4".to_string()),
        );
    }
    let count: usize = bytes.len() / 4;
    let mut vector: Vec<Float32> = Vec::new();
    let mut i: usize = 0;
    while i < count
        invariant
            4 * count == bytes@.len(),
            bytes@.len() <= usize::MAX,
            i <= count,
            vector@.len() == i,
            forall|j: int| 0 <= j < i ==> #[trigger] vector@[j] == floats_of_le_bytes(bytes@)[j],
        decreases count - i,
    {
        let at: usize = 4 * i;
        let bits: u32 = (bytes[at] as u32) + (bytes[at + 1] as u32) * 0x100 + (bytes[at + 2] as u32)
            * 0x1_0000 + (bytes[at + 3] as u32) * 0x100_0000;
        vector.push(Float32::from_bits(bits));
        i += 1;
    }
    assert(vector@ =~= floats_of_le_bytes(bytes@));
    Ok(vector)
}

/// Decodes a base64 embedding: base64 to bytes, bytes to little-endian
/// binary32 numbers.
pub fn decode_base64_embedding(base64_str: &str) -> (vector: Result<Vec<Float32>, GrokError>)
    ensures
        match vector {
            Ok(vector) => embedding_of_base64(base64_str@) == Ok::<Seq<Float32>, GrokErrorView>(
                vector@,
            ),
            Err(error) => embedding_of_base64(base64_str@) == Err::<Seq<Float32>, GrokErrorView>(
                error@,
            ),
        },
{
    match decode_standard(base64_str) {
        Err(error) => {
            let detail = display_decode_error(&error);
            Err(GrokError::InvalidRequest(concat("invalid base64 embedding: ", detail.as_str())))
        },
        Ok(decoded) => floats_from_le_bytes(decoded.as_slice()),
    }
}

impl EmbeddingView {
    /// The vector that a feature vector of the wire stands for: the numbers
    /// where there are any, else the decoded base64 text where there is one,
    /// else an error.
    pub open spec fn vector_from_wire(wire: proto::FeatureVectorView) -> Result<
        Seq<Float32>,
        GrokErrorView,
    > {
        if wire.float_array.len() > 0 {
            Ok(wire.float_array)
        } else if wire.base64_array.len() > 0 {
            embedding_of_base64(wire.base64_array)
        } else {
            Err(GrokErrorView::InvalidRequest("embedding had neither float nor base64 array"@))
        }
    }

    /// The embedding that a wire message stands for: its position, and the
    /// vector of its first feature vector. A message without feature vectors
    /// stands for none.
    pub open spec fn from_wire(wire: proto::EmbeddingView) -> Result<EmbeddingView, GrokErrorView> {
        if wire.embeddings.len() == 0 {
            Err(GrokErrorView::InvalidRequest("missing embedding vector"@))
        } else {
            match Self::vector_from_wire(wire.embeddings[0]) {
                Ok(vector) => Ok(
                    EmbeddingView { index: reinterpret_i32_as_usize(wire.index), vector: vector },
                ),
                Err(error) => Err(error),
            }
        }
    }

    /// The embeddings that a list of wire messages stands for, in the same
    /// order, or the error of the first message that stands for none.
    pub open spec fn all_from_wire(wire: Seq<proto::EmbeddingView>) -> Result<
        Seq<EmbeddingView>,
        GrokErrorView,
    >
        decreases wire.len(),
    {
        if wire.len() == 0 {
            Ok(Seq::empty())
        } else {
            match Self::all_from_wire(wire.drop_last()) {
                Err(error) => Err(error),
                Ok(earlier) => match Self::from_wire(wire.last()) {
                    Err(error) => Err(error),
                    Ok(embedding) => Ok(earlier.push(embedding)),
                },
            }
        }
    }
}

impl EmbedResponseView {
    /// The response that a wire message stands for, or the error of its
    /// first embedding that cannot be read. Missing accounting counts as zero.
    pub open spec fn from_wire(wire: proto::EmbedResponseView) -> Result<
        EmbedResponseView,
        GrokErrorView,
    > {
        match EmbeddingView::all_from_wire(wire.embeddings) {
            Err(error) => Err(error),
            Ok(embeddings) => Ok(
                EmbedResponseView {
                    id: wire.id,
                    embeddings: embeddings,
                    usage: match wire.usage {
                        Some(usage) => EmbeddingUsage::from_wire(usage),
                        None => EmbeddingUsage { num_text_embeddings: 0, num_image_embeddings: 0 },
                    },
                    model: wire.model,
                    system_fingerprint: wire.system_fingerprint,
                },
            ),
        }
    }
}

/// Reads the vector of a feature vector of the wire.
pub fn vector_from_proto(wire: &proto::FeatureVector) -> (vector: Result<Vec<Float32>, GrokError>)
    ensures
        match vector {
            Ok(vector) => EmbeddingView::vector_from_wire(wire@) == Ok::<
                Seq<Float32>,
                GrokErrorView,
            >(vector@),
            Err(error) => EmbeddingView::vector_from_wire(wire@) == Err::<
                Seq<Float32>,
                GrokErrorView,
            >(error@),
        },
{
    if wire.float_array.len() > 0 {
        let vector = wire.float_array.clone();
        assert(vector@ =~= wire.float_array@);
        Ok(vector)
    } else if !wire.base64_array.as_str().is_empty() {
        decode_base64_embedding(wire.base64_array.as_str())
    } else {
        Err(GrokError::InvalidRequest("embedding had neither float nor base64 array".to_string()))
    }
}

/// Reads one embedding of a wire response.
pub fn embedding_from_proto(wire: &proto::Embedding) -> (embedding: Result<Embedding, GrokError>)
    ensures
        match embedding {
            Ok(embedding) => EmbeddingView::from_wire(wire@) == Ok::<EmbeddingView, GrokErrorView>(
                embedding@,
            ),
            Err(error) => EmbeddingView::from_wire(wire@) == Err::<EmbeddingView, GrokErrorView>(
                error@,
            ),
        },
{
    if wire.embeddings.len() == 0 {
        return Err(GrokError::InvalidRequest("missing embedding vector".to_string()));
    }
    match vector_from_proto(&wire.embeddings[0]) {
        Ok(vector) => Ok(Embedding { index: i32_as_usize(wire.index), vector }),
        Err(error) => Err(error),
    }
}

/// Assembles an embedding response from its wire message.
///
/// Fails on the first embedding that has no feature vector, whose vector is
/// given in neither encoding, or whose base64 text does not decode to a
/// whole number of binary32 values.
pub fn proto_to_embed_response(response: proto::EmbedResponse) -> (assembled: Result<
    EmbedResponse,
    GrokError,
>)
    ensures
        match assembled {
            Ok(assembled) => EmbedResponseView::from_wire(response@) == Ok::<
                EmbedResponseView,
                GrokErrorView,
            >(assembled@),
            Err(error) => EmbedResponseView::from_wire(response@) == Err::<
                EmbedResponseView,
                GrokErrorView,
            >(error@),
        },
{
    let ghost wire = response.embeddings.deep_view();
    let mut embeddings: Vec<Embedding> = Vec::new();
    let mut i: usize = 0;
    assert(embeddings.deep_view() =~= Seq::empty());
    assert(wire.take(0) =~= Seq::empty());
    while i < response.embeddings.len()
        invariant
            i <= response.embeddings@.len(),
            wire == response.embeddings.deep_view(),
            EmbeddingView::all_from_wire(wire.take(i as int)) == Ok::<
                Seq<EmbeddingView>,
                GrokErrorView,
            >(embeddings.deep_view()),
        decreases response.embeddings@.len() - i,
    {
        let ghost before = embeddings.deep_view();
        proof {
            assert(wire.take(i + 1).drop_last() =~= wire.take(i as int));
            assert(wire.take(i + 1).last() == response.embeddings@[i as int]@);
        }
        match embedding_from_proto(&response.embeddings[i]) {
            Ok(embedding) => {
                embeddings.push(embedding);
                assert(embeddings.deep_view() =~= before.push(embedding@));
            },
            Err(error) => {
                proof {
                    lemma_embeddings_fail_on_prefix(wire, i + 1);
                }
                return Err(error);
            },
        }
        i += 1;
    }
    assert(wire.take(response.embeddings@.len() as int) =~= wire);
    let usage = match response.usage {
        Some(usage) => EmbeddingUsage::from(usage),
        None => EmbeddingUsage::default(),
    };
    Ok(
        EmbedResponse {
            id: response.id,
            embeddings,
            usage,
            model: response.model,
            system_fingerprint: response.system_fingerprint,
        },
    )
}

/// A list of wire embeddings whose prefix cannot be read cannot be read
/// either, and fails with the error of the prefix.
proof fn lemma_embeddings_fail_on_prefix(wire: Seq<proto::EmbeddingView>, n: int)
    requires
        0 <= n <= wire.len(),
        EmbeddingView::all_from_wire(wire.take(n)) is Err,
    ensures
        EmbeddingView::all_from_wire(wire) == EmbeddingView::all_from_wire(wire.take(n)),
    decreases wire.len() - n,
{
    if n < wire.len() {
        assert(wire.take(n + 1).drop_last() =~= wire.take(n));
        lemma_embeddings_fail_on_prefix(wire, n + 1);
    } else {
        assert(wire.take(n) =~= wire);
    }
}

/// A vector given as numbers is returned exactly as it is: as many numbers,
/// and the same ones.
pub proof fn lemma_float_array_kept(wire: proto::FeatureVectorView)
    requires
        wire.float_array.len() > 0,
    ensures
        EmbeddingView::vector_from_wire(wire) == Ok::<Seq<Float32>, GrokErrorView>(wire.float_array),
{
}

/// Decoded bytes give one number for every four bytes; a length that is not
/// a multiple of 4 is refused.
pub proof fn lemma_embedding_bytes(bytes: Seq<u8>)
    ensures
        bytes.len() % 4 == 0 ==> embedding_of_bytes(bytes) is Ok && embedding_of_bytes(
            bytes,
        )->Ok_0.len() * 4 == bytes.len(),
        bytes.len() % 4 != 0 ==> embedding_of_bytes(bytes) == Err::<Seq<Float32>, GrokErrorView>(
            GrokErrorView::InvalidRequest("embedding byte length not divisible by 4"@),
        ),
{
}

/// A feature vector given in neither encoding is refused, and the error
/// says so.
pub proof fn lemma_empty_feature_vector_refused(wire: proto::FeatureVectorView)
    requires
        wire.float_array.len() == 0,
        wire.base64_array.len() == 0,
    ensures
        EmbeddingView::vector_from_wire(wire) == Err::<Seq<Float32>, GrokErrorView>(
            GrokErrorView::InvalidRequest("embedding had neither float nor base64 array"@),
        ),
{
}

/// The first embedding that cannot be read decides: where the embeddings
/// before position `n` can all be read and the one at `n` cannot, the whole
/// response fails with the error of that one, whatever comes after it.
pub proof fn lemma_first_unreadable_embedding_decides(wire: proto::EmbedResponseView, n: int)
    requires
        0 <= n < wire.embeddings.len(),
        forall|i: int| 0 <= i < n ==> EmbeddingView::from_wire(#[trigger] wire.embeddings[i]) is Ok,
        EmbeddingView::from_wire(wire.embeddings[n]) is Err,
    ensures
        EmbedResponseView::from_wire(wire) is Err,
        EmbedResponseView::from_wire(wire)->Err_0 == EmbeddingView::from_wire(
            wire.embeddings[n],
        )->Err_0,
{
    let list = wire.embeddings;
    lemma_readable_prefix(list, n);
    assert(list.take(n + 1).drop_last() =~= list.take(n));
    assert(list.take(n + 1).last() == list[n]);
    lemma_embeddings_fail_on_prefix(list, n + 1);
}

/// A list of wire embeddings that can each be read can be read as a whole.
proof fn lemma_readable_prefix(wire: Seq<proto::EmbeddingView>, n: int)
    requires
        0 <= n <= wire.len(),
        forall|i: int| 0 <= i < n ==> EmbeddingView::from_wire(#[trigger] wire[i]) is Ok,
    ensures
        EmbeddingView::all_from_wire(wire.take(n)) is Ok,
    decreases n,
{
    if n > 0 {
        lemma_readable_prefix(wire, n - 1);
        assert(wire.take(n).drop_last() =~= wire.take(n - 1));
        assert(wire.take(n).last() == wire[n - 1]);
    } else {
        assert(wire.take(0) =~= Seq::empty());
    }
}

/// The wire parts of a multimodal message are as many as its parts, and the
/// wire part at each position is the wire form of the part at that position.
pub proof fn lemma_multimodal_order_preserved(parts: Seq<ContentPartView>, i: int)
    requires
        0 <= i < parts.len(),
    ensures
        MessageContentView::MultiModal(parts).wire().len() == parts.len(),
        MessageContentView::MultiModal(parts).wire()[i] == parts[i].wire(),
        MessageView::User(MessageContentView::MultiModal(parts)).wire().content
            == MessageContentView::MultiModal(parts).wire(),
{
}

/// A text part, an image part and a file part go out as a text, an image and
/// a file, in that order.
pub proof fn lemma_text_image_file_order(
    text: Seq<char>,
    url: Seq<char>,
    detail: Option<ImageDetail>,
    file_id: Seq<char>,
)
    ensures
        ({
            let parts = seq![
                ContentPartView::Text(text),
                ContentPartView::ImageUrl { url, detail },
                ContentPartView::File { file_id },
            ];
            let wire = MessageView::User(MessageContentView::MultiModal(parts)).wire().content;
            &&& wire.len() == 3
            &&& wire[0].content == Some(proto::content::ContentView::Text(text))
            &&& wire[1].content matches Some(proto::content::ContentView::ImageUrl(image))
                && image.image_url == url
            &&& wire[2].content == Some(
                proto::content::ContentView::File(proto::FileContentView { file_id }),
            )
        }),
{
}

} // verus!
