//! Enumerations of the wire schema and the numbers that stand for them.

use vstd::prelude::*;

verus! {

/// Author of a message.
#[derive(Clone, Copy, Debug, PartialEq, Eq, Structural)]
pub enum MessageRole {
    /// No role. Wire code 0.
    InvalidRole,
    /// The end user. Wire code 1.
    RoleUser,
    /// The model. Wire code 2.
    RoleAssistant,
    /// Instructions to the model. Wire code 3.
    RoleSystem,
    /// A function result, in the older form. Wire code 4.
    RoleFunction,
    /// A tool result. Wire code 5.
    RoleTool,
}

impl MessageRole {
    /// The number that stands for the value on the wire.
    pub open spec fn code_spec(self) -> i32 {
        match self {
            MessageRole::InvalidRole => 0,
            MessageRole::RoleUser => 1,
            MessageRole::RoleAssistant => 2,
            MessageRole::RoleSystem => 3,
            MessageRole::RoleFunction => 4,
            MessageRole::RoleTool => 5,
        }
    }

    /// The value that a wire number stands for, if it stands for one.
    pub open spec fn from_code_spec(code: i32) -> Option<MessageRole> {
        if code == 0 {
            Some(MessageRole::InvalidRole)
        } else if code == 1 {
            Some(MessageRole::RoleUser)
        } else if code == 2 {
            Some(MessageRole::RoleAssistant)
        } else if code == 3 {
            Some(MessageRole::RoleSystem)
        } else if code == 4 {
            Some(MessageRole::RoleFunction)
        } else if code == 5 {
            Some(MessageRole::RoleTool)
        } else {
            None
        }
    }

    /// The number that stands for the value on the wire.
    pub fn code(self) -> (code: i32)
        ensures
            code == self.code_spec(),
    {
        match self {
            MessageRole::InvalidRole => 0,
            MessageRole::RoleUser => 1,
            MessageRole::RoleAssistant => 2,
            MessageRole::RoleSystem => 3,
            MessageRole::RoleFunction => 4,
            MessageRole::RoleTool => 5,
        }
    }

    /// Decodes a wire number; `None` for a number that stands for no value.
    pub fn from_code(code: i32) -> (value: Option<MessageRole>)
        ensures
            value == Self::from_code_spec(code),
    {
        if code == 0 {
            Some(MessageRole::InvalidRole)
        } else if code == 1 {
            Some(MessageRole::RoleUser)
        } else if code == 2 {
            Some(MessageRole::RoleAssistant)
        } else if code == 3 {
            Some(MessageRole::RoleSystem)
        } else if code == 4 {
            Some(MessageRole::RoleFunction)
        } else if code == 5 {
            Some(MessageRole::RoleTool)
        } else {
            None
        }
    }
}

/// Form of the answer.
#[derive(Clone, Copy, Debug, PartialEq, Eq, Structural)]
pub enum FormatType {
    /// No format. Wire code 0.
    Invalid,
    /// Free text. Wire code 1.
    Text,
    /// Any JSON object. Wire code 2.
    JsonObject,
    /// JSON that follows a schema. Wire code 3.
    JsonSchema,
}

impl FormatType {
    /// The number that stands for the value on the wire.
    pub open spec fn code_spec(self) -> i32 {
        match self {
            FormatType::Invalid => 0,
            FormatType::Text => 1,
            FormatType::JsonObject => 2,
            FormatType::JsonSchema => 3,
        }
    }

    /// The value that a wire number stands for, if it stands for one.
    pub open spec fn from_code_spec(code: i32) -> Option<FormatType> {
        if code == 0 {
            Some(FormatType::Invalid)
        } else if code == 1 {
            Some(FormatType::Text)
        } else if code == 2 {
            Some(FormatType::JsonObject)
        } else if code == 3 {
            Some(FormatType::JsonSchema)
        } else {
            None
        }
    }

    /// The number that stands for the value on the wire.
    pub fn code(self) -> (code: i32)
        ensures
            code == self.code_spec(),
    {
        match self {
            FormatType::Invalid => 0,
            FormatType::Text => 1,
            FormatType::JsonObject => 2,
            FormatType::JsonSchema => 3,
        }
    }

    /// Decodes a wire number; `None` for a number that stands for no value.
    pub fn from_code(code: i32) -> (value: Option<FormatType>)
        ensures
            value == Self::from_code_spec(code),
    {
        if code == 0 {
            Some(FormatType::Invalid)
        } else if code == 1 {
            Some(FormatType::Text)
        } else if code == 2 {
            Some(FormatType::JsonObject)
        } else if code == 3 {
            Some(FormatType::JsonSchema)
        } else {
            None
        }
    }
}

/// Detail at which an image is read.
#[derive(Clone, Copy, Debug, PartialEq, Eq, Structural)]
pub enum ImageDetail {
    /// No level. Wire code 0.
    DetailInvalid,
    /// Chosen by the service. Wire code 1.
    DetailAuto,
    /// Low detail. Wire code 2.
    DetailLow,
    /// High detail. Wire code 3.
    DetailHigh,
}

impl ImageDetail {
    /// The number that stands for the value on the wire.
    pub open spec fn code_spec(self) -> i32 {
        match self {
            ImageDetail::DetailInvalid => 0,
            ImageDetail::DetailAuto => 1,
            ImageDetail::DetailLow => 2,
            ImageDetail::DetailHigh => 3,
        }
    }

    /// The value that a wire number stands for, if it stands for one.
    pub open spec fn from_code_spec(code: i32) -> Option<ImageDetail> {
        if code == 0 {
            Some(ImageDetail::DetailInvalid)
        } else if code == 1 {
            Some(ImageDetail::DetailAuto)
        } else if code == 2 {
            Some(ImageDetail::DetailLow)
        } else if code == 3 {
            Some(ImageDetail::DetailHigh)
        } else {
            None
        }
    }

    /// The number that stands for the value on the wire.
    pub fn code(self) -> (code: i32)
        ensures
            code == self.code_spec(),
    {
        match self {
            ImageDetail::DetailInvalid => 0,
            ImageDetail::DetailAuto => 1,
            ImageDetail::DetailLow => 2,
            ImageDetail::DetailHigh => 3,
        }
    }

    /// Decodes a wire number; `None` for a number that stands for no value.
    pub fn from_code(code: i32) -> (value: Option<ImageDetail>)
        ensures
            value == Self::from_code_spec(code),
    {
        if code == 0 {
            Some(ImageDetail::DetailInvalid)
        } else if code == 1 {
            Some(ImageDetail::DetailAuto)
        } else if code == 2 {
            Some(ImageDetail::DetailLow)
        } else if code == 3 {
            Some(ImageDetail::DetailHigh)
        } else {
            None
        }
    }
}

/// General tool-choice mode.
#[derive(Clone, Copy, Debug, PartialEq, Eq, Structural)]
pub enum ToolMode {
    /// No mode. Wire code 0.
    Invalid,
    /// The model decides. Wire code 1.
    Auto,
    /// No tool is called. Wire code 2.
    NoTools,
    /// A tool must be called. Wire code 3.
    Required,
}

impl ToolMode {
    /// The number that stands for the value on the wire.
    pub open spec fn code_spec(self) -> i32 {
        match self {
            ToolMode::Invalid => 0,
            ToolMode::Auto => 1,
            ToolMode::NoTools => 2,
            ToolMode::Required => 3,
        }
    }

    /// The value that a wire number stands for, if it stands for one.
    pub open spec fn from_code_spec(code: i32) -> Option<ToolMode> {
        if code == 0 {
            Some(ToolMode::Invalid)
        } else if code == 1 {
            Some(ToolMode::Auto)
        } else if code == 2 {
            Some(ToolMode::NoTools)
        } else if code == 3 {
            Some(ToolMode::Required)
        } else {
            None
        }
    }

    /// The number that stands for the value on the wire.
    pub fn code(self) -> (code: i32)
        ensures
            code == self.code_spec(),
    {
        match self {
            ToolMode::Invalid => 0,
            ToolMode::Auto => 1,
            ToolMode::NoTools => 2,
            ToolMode::Required => 3,
        }
    }

    /// Decodes a wire number; `None` for a number that stands for no value.
    pub fn from_code(code: i32) -> (value: Option<ToolMode>)
        ensures
            value == Self::from_code_spec(code),
    {
        if code == 0 {
            Some(ToolMode::Invalid)
        } else if code == 1 {
            Some(ToolMode::Auto)
        } else if code == 2 {
            Some(ToolMode::NoTools)
        } else if code == 3 {
            Some(ToolMode::Required)
        } else {
            None
        }
    }
}

/// Kind of tool behind a call.
#[derive(Clone, Copy, Debug, PartialEq, Eq, Structural)]
pub enum ToolCallType {
    /// No kind. Wire code 0.
    Invalid,
    /// A function run by the client. Wire code 1.
    ClientSideTool,
    /// Web search. Wire code 2.
    WebSearchTool,
    /// Search of X posts. Wire code 3.
    XSearchTool,
    /// Code execution. Wire code 4.
    CodeExecutionTool,
    /// Search of document collections. Wire code 5.
    CollectionsSearchTool,
    /// Model Context Protocol server. Wire code 6.
    McpTool,
}

impl ToolCallType {
    /// The number that stands for the value on the wire.
    pub open spec fn code_spec(self) -> i32 {
        match self {
            ToolCallType::Invalid => 0,
            ToolCallType::ClientSideTool => 1,
            ToolCallType::WebSearchTool => 2,
            ToolCallType::XSearchTool => 3,
            ToolCallType::CodeExecutionTool => 4,
            ToolCallType::CollectionsSearchTool => 5,
            ToolCallType::McpTool => 6,
        }
    }

    /// The value that a wire number stands for, if it stands for one.
    pub open spec fn from_code_spec(code: i32) -> Option<ToolCallType> {
        if code == 0 {
            Some(ToolCallType::Invalid)
        } else if code == 1 {
            Some(ToolCallType::ClientSideTool)
        } else if code == 2 {
            Some(ToolCallType::WebSearchTool)
        } else if code == 3 {
            Some(ToolCallType::XSearchTool)
        } else if code == 4 {
            Some(ToolCallType::CodeExecutionTool)
        } else if code == 5 {
            Some(ToolCallType::CollectionsSearchTool)
        } else if code == 6 {
            Some(ToolCallType::McpTool)
        } else {
            None
        }
    }

    /// The number that stands for the value on the wire.
    pub fn code(self) -> (code: i32)
        ensures
            code == self.code_spec(),
    {
        match self {
            ToolCallType::Invalid => 0,
            ToolCallType::ClientSideTool => 1,
            ToolCallType::WebSearchTool => 2,
            ToolCallType::XSearchTool => 3,
            ToolCallType::CodeExecutionTool => 4,
            ToolCallType::CollectionsSearchTool => 5,
            ToolCallType::McpTool => 6,
        }
    }

    /// Decodes a wire number; `None` for a number that stands for no value.
    pub fn from_code(code: i32) -> (value: Option<ToolCallType>)
        ensures
            value == Self::from_code_spec(code),
    {
        if code == 0 {
            Some(ToolCallType::Invalid)
        } else if code == 1 {
            Some(ToolCallType::ClientSideTool)
        } else if code == 2 {
            Some(ToolCallType::WebSearchTool)
        } else if code == 3 {
            Some(ToolCallType::XSearchTool)
        } else if code == 4 {
            Some(ToolCallType::CodeExecutionTool)
        } else if code == 5 {
            Some(ToolCallType::CollectionsSearchTool)
        } else if code == 6 {
            Some(ToolCallType::McpTool)
        } else {
            None
        }
    }
}

/// State of a tool call.
#[derive(Clone, Copy, Debug, PartialEq, Eq, Structural)]
pub enum ToolCallStatus {
    /// Still running. Wire code 0.
    InProgress,
    /// Finished. Wire code 1.
    Completed,
    /// Ended early. Wire code 2.
    Incomplete,
    /// Ended with an error. Wire code 3.
    Failed,
}

impl ToolCallStatus {
    /// The number that stands for the value on the wire.
    pub open spec fn code_spec(self) -> i32 {
        match self {
            ToolCallStatus::InProgress => 0,
            ToolCallStatus::Completed => 1,
            ToolCallStatus::Incomplete => 2,
            ToolCallStatus::Failed => 3,
        }
    }

    /// The value that a wire number stands for, if it stands for one.
    pub open spec fn from_code_spec(code: i32) -> Option<ToolCallStatus> {
        if code == 0 {
            Some(ToolCallStatus::InProgress)
        } else if code == 1 {
            Some(ToolCallStatus::Completed)
        } else if code == 2 {
            Some(ToolCallStatus::Incomplete)
        } else if code == 3 {
            Some(ToolCallStatus::Failed)
        } else {
            None
        }
    }

    /// The number that stands for the value on the wire.
    pub fn code(self) -> (code: i32)
        ensures
            code == self.code_spec(),
    {
        match self {
            ToolCallStatus::InProgress => 0,
            ToolCallStatus::Completed => 1,
            ToolCallStatus::Incomplete => 2,
            ToolCallStatus::Failed => 3,
        }
    }

    /// Decodes a wire number; `None` for a number that stands for no value.
    pub fn from_code(code: i32) -> (value: Option<ToolCallStatus>)
        ensures
            value == Self::from_code_spec(code),
    {
        if code == 0 {
            Some(ToolCallStatus::InProgress)
        } else if code == 1 {
            Some(ToolCallStatus::Completed)
        } else if code == 2 {
            Some(ToolCallStatus::Incomplete)
        } else if code == 3 {
            Some(ToolCallStatus::Failed)
        } else {
            None
        }
    }
}

/// Why generation stopped.
#[derive(Clone, Copy, Debug, PartialEq, Eq, Structural)]
pub enum FinishReason {
    /// No reason; generation goes on. Wire code 0.
    ReasonInvalid,
    /// The token limit was reached. Wire code 1.
    ReasonMaxLen,
    /// The context was used up. Wire code 2.
    ReasonMaxContext,
    /// A natural end or a stop sequence. Wire code 3.
    ReasonStop,
    /// The model asks for tool calls. Wire code 4.
    ReasonToolCalls,
    /// The time limit was reached. Wire code 5.
    ReasonTimeLimit,
}

impl FinishReason {
    /// The number that stands for the value on the wire.
    pub open spec fn code_spec(self) -> i32 {
        match self {
            FinishReason::ReasonInvalid => 0,
            FinishReason::ReasonMaxLen => 1,
            FinishReason::ReasonMaxContext => 2,
            FinishReason::ReasonStop => 3,
            FinishReason::ReasonToolCalls => 4,
            FinishReason::ReasonTimeLimit => 5,
        }
    }

    /// The value that a wire number stands for, if it stands for one.
    pub open spec fn from_code_spec(code: i32) -> Option<FinishReason> {
        if code == 0 {
            Some(FinishReason::ReasonInvalid)
        } else if code == 1 {
            Some(FinishReason::ReasonMaxLen)
        } else if code == 2 {
            Some(FinishReason::ReasonMaxContext)
        } else if code == 3 {
            Some(FinishReason::ReasonStop)
        } else if code == 4 {
            Some(FinishReason::ReasonToolCalls)
        } else if code == 5 {
            Some(FinishReason::ReasonTimeLimit)
        } else {
            None
        }
    }

    /// The number that stands for the value on the wire.
    pub fn code(self) -> (code: i32)
        ensures
            code == self.code_spec(),
    {
        match self {
            FinishReason::ReasonInvalid => 0,
            FinishReason::ReasonMaxLen => 1,
            FinishReason::ReasonMaxContext => 2,
            FinishReason::ReasonStop => 3,
            FinishReason::ReasonToolCalls => 4,
            FinishReason::ReasonTimeLimit => 5,
        }
    }

    /// Decodes a wire number; `None` for a number that stands for no value.
    pub fn from_code(code: i32) -> (value: Option<FinishReason>)
        ensures
            value == Self::from_code_spec(code),
    {
        if code == 0 {
            Some(FinishReason::ReasonInvalid)
        } else if code == 1 {
            Some(FinishReason::ReasonMaxLen)
        } else if code == 2 {
            Some(FinishReason::ReasonMaxContext)
        } else if code == 3 {
            Some(FinishReason::ReasonStop)
        } else if code == 4 {
            Some(FinishReason::ReasonToolCalls)
        } else if code == 5 {
            Some(FinishReason::ReasonTimeLimit)
        } else {
            None
        }
    }
}

/// State of a deferred completion.
#[derive(Clone, Copy, Debug, PartialEq, Eq, Structural)]
pub enum DeferredStatus {
    /// No state. Wire code 0.
    InvalidDeferredStatus,
    /// The completion is ready. Wire code 1.
    Done,
    /// The completion is no longer kept. Wire code 2.
    Expired,
    /// The completion is still being made. Wire code 3.
    Pending,
}

impl DeferredStatus {
    /// The number that stands for the value on the wire.
    pub open spec fn code_spec(self) -> i32 {
        match self {
            DeferredStatus::InvalidDeferredStatus => 0,
            DeferredStatus::Done => 1,
            DeferredStatus::Expired => 2,
            DeferredStatus::Pending => 3,
        }
    }

    /// The value that a wire number stands for, if it stands for one.
    pub open spec fn from_code_spec(code: i32) -> Option<DeferredStatus> {
        if code == 0 {
            Some(DeferredStatus::InvalidDeferredStatus)
        } else if code == 1 {
            Some(DeferredStatus::Done)
        } else if code == 2 {
            Some(DeferredStatus::Expired)
        } else if code == 3 {
            Some(DeferredStatus::Pending)
        } else {
            None
        }
    }

    /// The number that stands for the value on the wire.
    pub fn code(self) -> (code: i32)
        ensures
            code == self.code_spec(),
    {
        match self {
            DeferredStatus::InvalidDeferredStatus => 0,
            DeferredStatus::Done => 1,
            DeferredStatus::Expired => 2,
            DeferredStatus::Pending => 3,
        }
    }

    /// Decodes a wire number; `None` for a number that stands for no value.
    pub fn from_code(code: i32) -> (value: Option<DeferredStatus>)
        ensures
            value == Self::from_code_spec(code),
    {
        if code == 0 {
            Some(DeferredStatus::InvalidDeferredStatus)
        } else if code == 1 {
            Some(DeferredStatus::Done)
        } else if code == 2 {
            Some(DeferredStatus::Expired)
        } else if code == 3 {
            Some(DeferredStatus::Pending)
        } else {
            None
        }
    }
}

/// Optional output that a request may ask for.
#[derive(Clone, Copy, Debug, PartialEq, Eq, Structural)]
pub enum IncludeOption {
    /// No option. Wire code 0.
    Invalid,
    /// Output of web search calls. Wire code 1.
    WebSearchCallOutput,
    /// Output of X search calls. Wire code 2.
    XSearchCallOutput,
    /// Output of code execution calls. Wire code 3.
    CodeExecutionCallOutput,
    /// Output of collections search calls. Wire code 4.
    CollectionsSearchCallOutput,
    /// Output of document search calls. Wire code 5.
    DocumentSearchCallOutput,
    /// Output of MCP calls. Wire code 6.
    McpCallOutput,
    /// Citations inside the text. Wire code 7.
    InlineCitations,
}

impl IncludeOption {
    /// The number that stands for the value on the wire.
    pub open spec fn code_spec(self) -> i32 {
        match self {
            IncludeOption::Invalid => 0,
            IncludeOption::WebSearchCallOutput => 1,
            IncludeOption::XSearchCallOutput => 2,
            IncludeOption::CodeExecutionCallOutput => 3,
            IncludeOption::CollectionsSearchCallOutput => 4,
            IncludeOption::DocumentSearchCallOutput => 5,
            IncludeOption::McpCallOutput => 6,
            IncludeOption::InlineCitations => 7,
        }
    }

    /// The value that a wire number stands for, if it stands for one.
    pub open spec fn from_code_spec(code: i32) -> Option<IncludeOption> {
        if code == 0 {
            Some(IncludeOption::Invalid)
        } else if code == 1 {
            Some(IncludeOption::WebSearchCallOutput)
        } else if code == 2 {
            Some(IncludeOption::XSearchCallOutput)
        } else if code == 3 {
            Some(IncludeOption::CodeExecutionCallOutput)
        } else if code == 4 {
            Some(IncludeOption::CollectionsSearchCallOutput)
        } else if code == 5 {
            Some(IncludeOption::DocumentSearchCallOutput)
        } else if code == 6 {
            Some(IncludeOption::McpCallOutput)
        } else if code == 7 {
            Some(IncludeOption::InlineCitations)
        } else {
            None
        }
    }

    /// The number that stands for the value on the wire.
    pub fn code(self) -> (code: i32)
        ensures
            code == self.code_spec(),
    {
        match self {
            IncludeOption::Invalid => 0,
            IncludeOption::WebSearchCallOutput => 1,
            IncludeOption::XSearchCallOutput => 2,
            IncludeOption::CodeExecutionCallOutput => 3,
            IncludeOption::CollectionsSearchCallOutput => 4,
            IncludeOption::DocumentSearchCallOutput => 5,
            IncludeOption::McpCallOutput => 6,
            IncludeOption::InlineCitations => 7,
        }
    }

    /// Decodes a wire number; `None` for a number that stands for no value.
    pub fn from_code(code: i32) -> (value: Option<IncludeOption>)
        ensures
            value == Self::from_code_spec(code),
    {
        if code == 0 {
            Some(IncludeOption::Invalid)
        } else if code == 1 {
            Some(IncludeOption::WebSearchCallOutput)
        } else if code == 2 {
            Some(IncludeOption::XSearchCallOutput)
        } else if code == 3 {
            Some(IncludeOption::CodeExecutionCallOutput)
        } else if code == 4 {
            Some(IncludeOption::CollectionsSearchCallOutput)
        } else if code == 5 {
            Some(IncludeOption::DocumentSearchCallOutput)
        } else if code == 6 {
            Some(IncludeOption::McpCallOutput)
        } else if code == 7 {
            Some(IncludeOption::InlineCitations)
        } else {
            None
        }
    }
}

/// Kind of data a model reads or writes.
#[derive(Clone, Copy, Debug, PartialEq, Eq, Structural)]
pub enum Modality {
    /// No kind. Wire code 0.
    InvalidModality,
    /// Text. Wire code 1.
    Text,
    /// Images. Wire code 2.
    Image,
    /// Embedding vectors. Wire code 3.
    Embedding,
}

impl Modality {
    /// The number that stands for the value on the wire.
    pub open spec fn code_spec(self) -> i32 {
        match self {
            Modality::InvalidModality => 0,
            Modality::Text => 1,
            Modality::Image => 2,
            Modality::Embedding => 3,
        }
    }

    /// The value that a wire number stands for, if it stands for one.
    pub open spec fn from_code_spec(code: i32) -> Option<Modality> {
        if code == 0 {
            Some(Modality::InvalidModality)
        } else if code == 1 {
            Some(Modality::Text)
        } else if code == 2 {
            Some(Modality::Image)
        } else if code == 3 {
            Some(Modality::Embedding)
        } else {
            None
        }
    }

    /// The number that stands for the value on the wire.
    pub fn code(self) -> (code: i32)
        ensures
            code == self.code_spec(),
    {
        match self {
            Modality::InvalidModality => 0,
            Modality::Text => 1,
            Modality::Image => 2,
            Modality::Embedding => 3,
        }
    }

    /// Decodes a wire number; `None` for a number that stands for no value.
    pub fn from_code(code: i32) -> (value: Option<Modality>)
        ensures
            value == Self::from_code_spec(code),
    {
        if code == 0 {
            Some(Modality::InvalidModality)
        } else if code == 1 {
            Some(Modality::Text)
        } else if code == 2 {
            Some(Modality::Image)
        } else if code == 3 {
            Some(Modality::Embedding)
        } else {
            None
        }
    }
}

/// Encoding of embedding vectors.
#[derive(Clone, Copy, Debug, PartialEq, Eq, Structural)]
pub enum EmbedEncodingFormat {
    /// No encoding. Wire code 0.
    FormatInvalid,
    /// Numbers. Wire code 1.
    FormatFloat,
    /// Base64 text. Wire code 2.
    FormatBase64,
}

impl EmbedEncodingFormat {
    /// The number that stands for the value on the wire.
    pub open spec fn code_spec(self) -> i32 {
        match self {
            EmbedEncodingFormat::FormatInvalid => 0,
            EmbedEncodingFormat::FormatFloat => 1,
            EmbedEncodingFormat::FormatBase64 => 2,
        }
    }

    /// The value that a wire number stands for, if it stands for one.
    pub open spec fn from_code_spec(code: i32) -> Option<EmbedEncodingFormat> {
        if code == 0 {
            Some(EmbedEncodingFormat::FormatInvalid)
        } else if code == 1 {
            Some(EmbedEncodingFormat::FormatFloat)
        } else if code == 2 {
            Some(EmbedEncodingFormat::FormatBase64)
        } else {
            None
        }
    }

    /// The number that stands for the value on the wire.
    pub fn code(self) -> (code: i32)
        ensures
            code == self.code_spec(),
    {
        match self {
            EmbedEncodingFormat::FormatInvalid => 0,
            EmbedEncodingFormat::FormatFloat => 1,
            EmbedEncodingFormat::FormatBase64 => 2,
        }
    }

    /// Decodes a wire number; `None` for a number that stands for no value.
    pub fn from_code(code: i32) -> (value: Option<EmbedEncodingFormat>)
        ensures
            value == Self::from_code_spec(code),
    {
        if code == 0 {
            Some(EmbedEncodingFormat::FormatInvalid)
        } else if code == 1 {
            Some(EmbedEncodingFormat::FormatFloat)
        } else if code == 2 {
            Some(EmbedEncodingFormat::FormatBase64)
        } else {
            None
        }
    }
}

/// Form in which a generated image is returned.
#[derive(Clone, Copy, Debug, PartialEq, Eq, Structural)]
pub enum ImageFormat {
    /// No form. Wire code 0.
    ImgFormatInvalid,
    /// Image data in base64. Wire code 1.
    ImgFormatBase64,
    /// A URL. Wire code 2.
    ImgFormatUrl,
}

impl ImageFormat {
    /// The number that stands for the value on the wire.
    pub open spec fn code_spec(self) -> i32 {
        match self {
            ImageFormat::ImgFormatInvalid => 0,
            ImageFormat::ImgFormatBase64 => 1,
            ImageFormat::ImgFormatUrl => 2,
        }
    }

    /// The value that a wire number stands for, if it stands for one.
    pub open spec fn from_code_spec(code: i32) -> Option<ImageFormat> {
        if code == 0 {
            Some(ImageFormat::ImgFormatInvalid)
        } else if code == 1 {
            Some(ImageFormat::ImgFormatBase64)
        } else if code == 2 {
            Some(ImageFormat::ImgFormatUrl)
        } else {
            None
        }
    }

    /// The number that stands for the value on the wire.
    pub fn code(self) -> (code: i32)
        ensures
            code == self.code_spec(),
    {
        match self {
            ImageFormat::ImgFormatInvalid => 0,
            ImageFormat::ImgFormatBase64 => 1,
            ImageFormat::ImgFormatUrl => 2,
        }
    }

    /// Decodes a wire number; `None` for a number that stands for no value.
    pub fn from_code(code: i32) -> (value: Option<ImageFormat>)
        ensures
            value == Self::from_code_spec(code),
    {
        if code == 0 {
            Some(ImageFormat::ImgFormatInvalid)
        } else if code == 1 {
            Some(ImageFormat::ImgFormatBase64)
        } else if code == 2 {
            Some(ImageFormat::ImgFormatUrl)
        } else {
            None
        }
    }
}

/// Measure by which search results are ranked.
#[derive(Clone, Copy, Debug, PartialEq, Eq, Structural)]
pub enum RankingMetric {
    /// No measure. Wire code 0.
    Unknown,
    /// Euclidean distance. Wire code 1.
    L2Distance,
    /// Cosine similarity. Wire code 2.
    CosineSimilarity,
}

impl RankingMetric {
    /// The number that stands for the value on the wire.
    pub open spec fn code_spec(self) -> i32 {
        match self {
            RankingMetric::Unknown => 0,
            RankingMetric::L2Distance => 1,
            RankingMetric::CosineSimilarity => 2,
        }
    }

    /// The value that a wire number stands for, if it stands for one.
    pub open spec fn from_code_spec(code: i32) -> Option<RankingMetric> {
        if code == 0 {
            Some(RankingMetric::Unknown)
        } else if code == 1 {
            Some(RankingMetric::L2Distance)
        } else if code == 2 {
            Some(RankingMetric::CosineSimilarity)
        } else {
            None
        }
    }

    /// The number that stands for the value on the wire.
    pub fn code(self) -> (code: i32)
        ensures
            code == self.code_spec(),
    {
        match self {
            RankingMetric::Unknown => 0,
            RankingMetric::L2Distance => 1,
            RankingMetric::CosineSimilarity => 2,
        }
    }

    /// Decodes a wire number; `None` for a number that stands for no value.
    pub fn from_code(code: i32) -> (value: Option<RankingMetric>)
        ensures
            value == Self::from_code_spec(code),
    {
        if code == 0 {
            Some(RankingMetric::Unknown)
        } else if code == 1 {
            Some(RankingMetric::L2Distance)
        } else if code == 2 {
            Some(RankingMetric::CosineSimilarity)
        } else {
            None
        }
    }
}

} // verus!
