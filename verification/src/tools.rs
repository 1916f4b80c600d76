//! Tools offered to the model and tool calls made by it.

use vstd::prelude::*;
use crate::copying::{copy_optional_string, copy_string_map, copy_strings};
use crate::json::{
    entries_text, json_object_text, json_parsed_text, json_string_text, json_text, object_value,
    parse, render, string_value,
};
use crate::proto;
use crate::proto::{ToolCallStatus, ToolCallType, ToolMode};
use std::collections::HashMap;

verus! {

/// A tool offered to the model.
///
/// Each variant owns its own settings; tools share no state.
#[derive(Debug)]
pub enum Tool {
    /// A function run by the client.
    Function(FunctionTool),
    /// Server-side web search.
    WebSearch(WebSearchTool),
    /// Server-side search of X posts.
    XSearch(XSearchTool),
    /// Server-side code execution.
    CodeExecution,
    /// Server-side search of document collections.
    CollectionsSearch(CollectionsSearchTool),
    /// A Model Context Protocol server.
    Mcp(McpTool),
    /// Server-side document retrieval.
    DocumentSearch(DocumentSearchTool),
}

/// What a [`Tool`] holds, as mathematical values.
pub enum ToolView {
    Function(FunctionToolView),
    WebSearch(WebSearchToolView),
    XSearch(XSearchToolView),
    CodeExecution,
    CollectionsSearch(CollectionsSearchToolView),
    Mcp(McpToolView),
    DocumentSearch(DocumentSearchToolView),
}

impl View for Tool {
    type V = ToolView;

    open spec fn view(&self) -> ToolView {
        match self {
            Tool::Function(inner) => ToolView::Function(inner@),
            Tool::WebSearch(inner) => ToolView::WebSearch(inner@),
            Tool::XSearch(inner) => ToolView::XSearch(inner@),
            Tool::CodeExecution => ToolView::CodeExecution,
            Tool::CollectionsSearch(inner) => ToolView::CollectionsSearch(inner@),
            Tool::Mcp(inner) => ToolView::Mcp(inner@),
            Tool::DocumentSearch(inner) => ToolView::DocumentSearch(inner@),
        }
    }
}

impl DeepView for Tool {
    type V = ToolView;

    open spec fn deep_view(&self) -> ToolView {
        self@
    }
}

/// A function that the client runs when the model calls it.
#[derive(Debug)]
pub struct FunctionTool {
    /// Name of the function.
    pub name: String,
    /// What the function does.
    pub description: String,
    /// JSON schema of the parameters; sent on as it is, never checked.
    pub parameters: serde_json::Value,
}

/// What a [`FunctionTool`] holds, as mathematical values.
pub struct FunctionToolView {
    pub name: Seq<char>,
    pub description: Seq<char>,
    pub parameters: Seq<char>,
}

impl View for FunctionTool {
    type V = FunctionToolView;

    open spec fn view(&self) -> FunctionToolView {
        FunctionToolView {
            name: self.name@,
            description: self.description@,
            parameters: json_text(self.parameters),
        }
    }
}

impl DeepView for FunctionTool {
    type V = FunctionToolView;

    open spec fn deep_view(&self) -> FunctionToolView {
        self@
    }
}

/// Settings of server-side web search.
#[derive(Debug)]
pub struct WebSearchTool {
    /// Domains left out of the results.
    pub excluded_domains: Vec<String>,
    /// Domains the results are restricted to.
    pub allowed_domains: Vec<String>,
    /// Whether images in results are analysed.
    pub enable_image_understanding: Option<bool>,
}

/// What a [`WebSearchTool`] holds, as mathematical values.
pub struct WebSearchToolView {
    pub excluded_domains: Seq<Seq<char>>,
    pub allowed_domains: Seq<Seq<char>>,
    pub enable_image_understanding: Option<bool>,
}

impl View for WebSearchTool {
    type V = WebSearchToolView;

    open spec fn view(&self) -> WebSearchToolView {
        WebSearchToolView {
            excluded_domains: self.excluded_domains.deep_view(),
            allowed_domains: self.allowed_domains.deep_view(),
            enable_image_understanding: self.enable_image_understanding,
        }
    }
}

impl DeepView for WebSearchTool {
    type V = WebSearchToolView;

    open spec fn deep_view(&self) -> WebSearchToolView {
        self@
    }
}

/// Settings of server-side search of X posts.
#[derive(Debug)]
pub struct XSearchTool {
    /// Earliest post time.
    pub from_date: Option<prost_types::Timestamp>,
    /// Latest post time.
    pub to_date: Option<prost_types::Timestamp>,
    /// Handles the results are restricted to.
    pub allowed_x_handles: Vec<String>,
    /// Handles left out of the results.
    pub excluded_x_handles: Vec<String>,
    /// Whether images are analysed.
    pub enable_image_understanding: Option<bool>,
    /// Whether videos are analysed.
    pub enable_video_understanding: Option<bool>,
}

/// What a [`XSearchTool`] holds, as mathematical values.
pub struct XSearchToolView {
    pub from_date: Option<prost_types::Timestamp>,
    pub to_date: Option<prost_types::Timestamp>,
    pub allowed_x_handles: Seq<Seq<char>>,
    pub excluded_x_handles: Seq<Seq<char>>,
    pub enable_image_understanding: Option<bool>,
    pub enable_video_understanding: Option<bool>,
}

impl View for XSearchTool {
    type V = XSearchToolView;

    open spec fn view(&self) -> XSearchToolView {
        XSearchToolView {
            from_date: self.from_date,
            to_date: self.to_date,
            allowed_x_handles: self.allowed_x_handles.deep_view(),
            excluded_x_handles: self.excluded_x_handles.deep_view(),
            enable_image_understanding: self.enable_image_understanding,
            enable_video_understanding: self.enable_video_understanding,
        }
    }
}

impl DeepView for XSearchTool {
    type V = XSearchToolView;

    open spec fn deep_view(&self) -> XSearchToolView {
        self@
    }
}

/// Settings of server-side search of document collections.
#[derive(Debug)]
pub struct CollectionsSearchTool {
    /// Collections to search.
    pub collection_ids: Vec<String>,
    /// Chunks returned per collection.
    pub limit: Option<i32>,
}

/// What a [`CollectionsSearchTool`] holds, as mathematical values.
pub struct CollectionsSearchToolView {
    pub collection_ids: Seq<Seq<char>>,
    pub limit: Option<i32>,
}

impl View for CollectionsSearchTool {
    type V = CollectionsSearchToolView;

    open spec fn view(&self) -> CollectionsSearchToolView {
        CollectionsSearchToolView {
            collection_ids: self.collection_ids.deep_view(),
            limit: self.limit,
        }
    }
}

impl DeepView for CollectionsSearchTool {
    type V = CollectionsSearchToolView;

    open spec fn deep_view(&self) -> CollectionsSearchToolView {
        self@
    }
}

/// A Model Context Protocol server the model may use.
#[derive(Debug)]
pub struct McpTool {
    /// Label of the server.
    pub server_label: String,
    /// Description of the server.
    pub server_description: String,
    /// URL of the server.
    pub server_url: String,
    /// Tools of the server that may be called.
    pub allowed_tool_names: Vec<String>,
    /// Authorization token.
    pub authorization: Option<String>,
    /// Headers sent along.
    pub extra_headers: HashMap<String, String>,
}

/// What a [`McpTool`] holds, as mathematical values.
pub struct McpToolView {
    pub server_label: Seq<char>,
    pub server_description: Seq<char>,
    pub server_url: Seq<char>,
    pub allowed_tool_names: Seq<Seq<char>>,
    pub authorization: Option<Seq<char>>,
    pub extra_headers: Map<Seq<char>, Seq<char>>,
}

impl View for McpTool {
    type V = McpToolView;

    open spec fn view(&self) -> McpToolView {
        McpToolView {
            server_label: self.server_label@,
            server_description: self.server_description@,
            server_url: self.server_url@,
            allowed_tool_names: self.allowed_tool_names.deep_view(),
            authorization: self.authorization.deep_view(),
            extra_headers: self.extra_headers.deep_view(),
        }
    }
}

impl DeepView for McpTool {
    type V = McpToolView;

    open spec fn deep_view(&self) -> McpToolView {
        self@
    }
}

/// Settings of server-side document retrieval.
#[derive(Debug)]
pub struct DocumentSearchTool {
    /// Files the search is limited to.
    pub limit: Option<i32>,
}

/// What a [`DocumentSearchTool`] holds, as mathematical values.
pub struct DocumentSearchToolView {
    pub limit: Option<i32>,
}

impl View for DocumentSearchTool {
    type V = DocumentSearchToolView;

    open spec fn view(&self) -> DocumentSearchToolView {
        DocumentSearchToolView {
            limit: self.limit,
        }
    }
}

impl DeepView for DocumentSearchTool {
    type V = DocumentSearchToolView;

    open spec fn deep_view(&self) -> DocumentSearchToolView {
        self@
    }
}

/// Which tools the model may or must call.
#[derive(Debug)]
pub enum ToolChoice {
    /// The model decides.
    Auto,
    /// The model must call a tool.
    Required,
    /// The model must call the named function.
    Function(String),
}

/// What a [`ToolChoice`] holds, as mathematical values.
pub enum ToolChoiceView {
    Auto,
    Required,
    Function(Seq<char>),
}

impl View for ToolChoice {
    type V = ToolChoiceView;

    open spec fn view(&self) -> ToolChoiceView {
        match self {
            ToolChoice::Auto => ToolChoiceView::Auto,
            ToolChoice::Required => ToolChoiceView::Required,
            ToolChoice::Function(inner) => ToolChoiceView::Function(inner@),
        }
    }
}

impl DeepView for ToolChoice {
    type V = ToolChoiceView;

    open spec fn deep_view(&self) -> ToolChoiceView {
        self@
    }
}

/// A tool call made by the model.
#[derive(Clone, Debug)]
pub struct ToolCall {
    /// Identifier of the call.
    pub id: String,
    /// Kind of tool that is called.
    pub call_type: ToolCallKind,
    /// State of the call.
    pub status: ToolCallStatusKind,
    /// Why the call failed.
    pub error_message: Option<String>,
    /// Name and arguments of the call.
    pub function: FunctionCall,
}

/// What a [`ToolCall`] holds, as mathematical values.
pub struct ToolCallView {
    pub id: Seq<char>,
    pub call_type: ToolCallKind,
    pub status: ToolCallStatusKind,
    pub error_message: Option<Seq<char>>,
    pub function: FunctionCallView,
}

impl View for ToolCall {
    type V = ToolCallView;

    open spec fn view(&self) -> ToolCallView {
        ToolCallView {
            id: self.id@,
            call_type: self.call_type,
            status: self.status,
            error_message: self.error_message.deep_view(),
            function: self.function@,
        }
    }
}

impl DeepView for ToolCall {
    type V = ToolCallView;

    open spec fn deep_view(&self) -> ToolCallView {
        self@
    }
}

/// Kind of tool behind a call.
#[derive(Clone, Copy, Debug, PartialEq, Eq, Structural)]
pub enum ToolCallKind {
    /// A function run by the client.
    ClientSideTool,
    /// Server-side web search.
    WebSearchTool,
    /// Server-side search of X posts.
    XSearchTool,
    /// Server-side code execution.
    CodeExecutionTool,
    /// Server-side search of document collections.
    CollectionsSearchTool,
    /// A Model Context Protocol server.
    McpTool,
    /// A kind this library does not know.
    Unknown,
}

/// State of a tool call.
#[derive(Clone, Copy, Debug, PartialEq, Eq, Structural)]
pub enum ToolCallStatusKind {
    /// Still running.
    InProgress,
    /// Finished.
    Completed,
    /// Ended early.
    Incomplete,
    /// Ended with an error.
    Failed,
    /// A state this library does not know.
    Unknown,
}

/// Name and arguments of a called function.
#[derive(Clone, Debug)]
pub struct FunctionCall {
    /// Name of the function.
    pub name: String,
    /// Arguments as JSON text; the library does not look inside.
    pub arguments: String,
}

/// What a [`FunctionCall`] holds, as mathematical values.
pub struct FunctionCallView {
    pub name: Seq<char>,
    pub arguments: Seq<char>,
}

impl View for FunctionCall {
    type V = FunctionCallView;

    open spec fn view(&self) -> FunctionCallView {
        FunctionCallView {
            name: self.name@,
            arguments: self.arguments@,
        }
    }
}

impl DeepView for FunctionCall {
    type V = FunctionCallView;

    open spec fn deep_view(&self) -> FunctionCallView {
        self@
    }
}

impl Clone for Tool {
    fn clone(&self) -> (copy: Self)
        ensures
            copy@ == self@,
    {
        match self {
            Tool::Function(f) => Tool::Function(f.clone()),
            Tool::WebSearch(w) => Tool::WebSearch(w.clone()),
            Tool::XSearch(x) => Tool::XSearch(x.clone()),
            Tool::CodeExecution => Tool::CodeExecution,
            Tool::CollectionsSearch(c) => Tool::CollectionsSearch(c.clone()),
            Tool::Mcp(m) => Tool::Mcp(m.clone()),
            Tool::DocumentSearch(d) => Tool::DocumentSearch(d.clone()),
        }
    }
}

impl Clone for FunctionTool {
    fn clone(&self) -> (copy: Self)
        ensures
            copy@ == self@,
    {
        FunctionTool {
            name: self.name.clone(),
            description: self.description.clone(),
            parameters: self.parameters.clone(),
        }
    }
}

impl Clone for WebSearchTool {
    fn clone(&self) -> (copy: Self)
        ensures
            copy@ == self@,
    {
        WebSearchTool {
            excluded_domains: copy_strings(&self.excluded_domains),
            allowed_domains: copy_strings(&self.allowed_domains),
            enable_image_understanding: self.enable_image_understanding,
        }
    }
}

impl Clone for XSearchTool {
    fn clone(&self) -> (copy: Self)
        ensures
            copy@ == self@,
    {
        XSearchTool {
            from_date: self.from_date,
            to_date: self.to_date,
            allowed_x_handles: copy_strings(&self.allowed_x_handles),
            excluded_x_handles: copy_strings(&self.excluded_x_handles),
            enable_image_understanding: self.enable_image_understanding,
            enable_video_understanding: self.enable_video_understanding,
        }
    }
}

impl Clone for CollectionsSearchTool {
    fn clone(&self) -> (copy: Self)
        ensures
            copy@ == self@,
    {
        CollectionsSearchTool {
            collection_ids: copy_strings(&self.collection_ids),
            limit: self.limit,
        }
    }
}

impl Clone for McpTool {
    fn clone(&self) -> (copy: Self)
        ensures
            copy@ == self@,
    {
        McpTool {
            server_label: self.server_label.clone(),
            server_description: self.server_description.clone(),
            server_url: self.server_url.clone(),
            allowed_tool_names: copy_strings(&self.allowed_tool_names),
            authorization: copy_optional_string(&self.authorization),
            extra_headers: copy_string_map(&self.extra_headers),
        }
    }
}

impl Clone for DocumentSearchTool {
    fn clone(&self) -> (copy: Self)
        ensures
            copy@ == self@,
    {
        DocumentSearchTool { limit: self.limit }
    }
}

impl Clone for ToolChoice {
    fn clone(&self) -> (copy: Self)
        ensures
            copy@ == self@,
    {
        match self {
            ToolChoice::Auto => ToolChoice::Auto,
            ToolChoice::Required => ToolChoice::Required,
            ToolChoice::Function(name) => ToolChoice::Function(name.clone()),
        }
    }
}

/// A copy of a list of tools.
pub fn copy_tools(tools: &Vec<Tool>) -> (copy: Vec<Tool>)
    ensures
        copy.deep_view() == tools.deep_view(),
{
    let mut copy: Vec<Tool> = Vec::new();
    let mut i: usize = 0;
    while i < tools.len()
        invariant
            i <= tools@.len(),
            copy@.len() == i,
            forall|j: int| 0 <= j < i ==> (#[trigger] copy@[j])@ == tools@[j]@,
        decreases tools@.len() - i,
    {
        copy.push(tools[i].clone());
        i += 1;
    }
    assert(copy.deep_view() =~= tools.deep_view());
    copy
}

impl ToolView {
    /// The wire form of a tool: the one alternative that matches the variant,
    /// with the variant's own settings.
    pub open spec fn wire(self) -> proto::ToolView {
        proto::ToolView {
            tool: Some(
                match self {
                    ToolView::Function(f) => proto::tool::ToolView::Function(f.wire()),
                    ToolView::WebSearch(w) => proto::tool::ToolView::WebSearch(w.wire()),
                    ToolView::XSearch(x) => proto::tool::ToolView::XSearch(x.wire()),
                    ToolView::CodeExecution => proto::tool::ToolView::CodeExecution(
                        proto::CodeExecutionView {  },
                    ),
                    ToolView::CollectionsSearch(c) => proto::tool::ToolView::CollectionsSearch(
                        c.wire(),
                    ),
                    ToolView::Mcp(m) => proto::tool::ToolView::Mcp(m.wire()),
                    ToolView::DocumentSearch(d) => proto::tool::ToolView::DocumentSearch(d.wire()),
                },
            ),
        }
    }
}

impl Tool {
    /// Converts the tool to its wire form.
    pub fn to_proto(&self) -> (wire: proto::Tool)
        ensures
            wire@ == self@.wire(),
    {
        let tool = match self {
            Tool::Function(f) => proto::tool::Tool::Function(f.to_proto()),
            Tool::WebSearch(w) => proto::tool::Tool::WebSearch(w.to_proto()),
            Tool::XSearch(x) => proto::tool::Tool::XSearch(x.to_proto()),
            Tool::CodeExecution => proto::tool::Tool::CodeExecution(proto::CodeExecution {  }),
            Tool::CollectionsSearch(c) => proto::tool::Tool::CollectionsSearch(c.to_proto()),
            Tool::Mcp(m) => proto::tool::Tool::Mcp(m.to_proto()),
            Tool::DocumentSearch(d) => proto::tool::Tool::DocumentSearch(d.to_proto()),
        };
        proto::Tool { tool: Some(tool) }
    }
}

impl FunctionToolView {
    /// The wire form: the schema goes out as its compact text, and strict
    /// matching is never asked for.
    pub open spec fn wire(self) -> proto::FunctionView {
        proto::FunctionView {
            name: self.name,
            description: self.description,
            strict: false,
            parameters: self.parameters,
        }
    }
}

impl FunctionTool {
    /// Text of the schema of a function without parameters: an object type
    /// with an empty set of properties.
    pub open spec fn no_parameters_text() -> Seq<char> {
        json_object_text(
            seq![
                ("type"@, json_string_text("object"@)),
                ("properties"@, json_object_text(Seq::empty())),
            ],
        )
    }

    /// A function tool with the given name and description and a schema that
    /// declares no parameters.
    pub fn new(name: &str, description: &str) -> (tool: Self)
        ensures
            tool@ == (FunctionToolView {
                name: name@,
                description: description@,
                parameters: Self::no_parameters_text(),
            }),
    {
        let properties = object_value(Vec::new());
        assert(entries_text(Seq::empty()) =~= Seq::empty());
        let mut entries: Vec<(String, serde_json::Value)> = Vec::new();
        entries.push(("type".to_string(), string_value("object")));
        entries.push(("properties".to_string(), properties));
        assert(entries_text(entries@) =~= seq![
            ("type"@, json_string_text("object"@)),
            ("properties"@, json_object_text(Seq::empty())),
        ]);
        FunctionTool {
            name: name.to_string(),
            description: description.to_string(),
            parameters: object_value(entries),
        }
    }

    /// Replaces the schema of the parameters.
    pub fn with_parameters(self, parameters: serde_json::Value) -> (tool: Self)
        ensures
            tool@ == (FunctionToolView { parameters: json_text(parameters), ..self@ }),
    {
        let mut tool = self;
        tool.parameters = parameters;
        tool
    }

    /// Converts the tool to its wire form.
    pub fn to_proto(&self) -> (wire: proto::Function)
        ensures
            wire@ == self@.wire(),
    {
        proto::Function {
            name: self.name.clone(),
            description: self.description.clone(),
            strict: false,
            parameters: render(&self.parameters),
        }
    }
}

impl WebSearchToolView {
    /// The wire form: the same three settings.
    pub open spec fn wire(self) -> proto::WebSearchView {
        proto::WebSearchView {
            excluded_domains: self.excluded_domains,
            allowed_domains: self.allowed_domains,
            enable_image_understanding: self.enable_image_understanding,
        }
    }
}

impl WebSearchTool {
    /// Web search without restrictions.
    pub fn new() -> (tool: Self)
        ensures
            tool@ == (WebSearchToolView {
                excluded_domains: Seq::empty(),
                allowed_domains: Seq::empty(),
                enable_image_understanding: None,
            }),
    {
        let tool = WebSearchTool {
            excluded_domains: Vec::new(),
            allowed_domains: Vec::new(),
            enable_image_understanding: None,
        };
        assert(tool.excluded_domains.deep_view() =~= Seq::empty());
        assert(tool.allowed_domains.deep_view() =~= Seq::empty());
        tool
    }

    /// Sets the domains left out of the results.
    pub fn with_excluded_domains(self, domains: Vec<String>) -> (tool: Self)
        ensures
            tool@ == (WebSearchToolView { excluded_domains: domains.deep_view(), ..self@ }),
    {
        let mut tool = self;
        tool.excluded_domains = domains;
        tool
    }

    /// Sets the domains the results are restricted to.
    pub fn with_allowed_domains(self, domains: Vec<String>) -> (tool: Self)
        ensures
            tool@ == (WebSearchToolView { allowed_domains: domains.deep_view(), ..self@ }),
    {
        let mut tool = self;
        tool.allowed_domains = domains;
        tool
    }

    /// Switches the analysis of images in results on or off.
    pub fn with_image_understanding(self, enable: bool) -> (tool: Self)
        ensures
            tool@ == (WebSearchToolView { enable_image_understanding: Some(enable), ..self@ }),
    {
        let mut tool = self;
        tool.enable_image_understanding = Some(enable);
        tool
    }

    /// Converts the tool to its wire form.
    pub fn to_proto(&self) -> (wire: proto::WebSearch)
        ensures
            wire@ == self@.wire(),
    {
        proto::WebSearch {
            excluded_domains: copy_strings(&self.excluded_domains),
            allowed_domains: copy_strings(&self.allowed_domains),
            enable_image_understanding: self.enable_image_understanding,
        }
    }
}

impl Default for WebSearchTool {
    fn default() -> (tool: Self)
        ensures
            tool@ == (WebSearchToolView {
                excluded_domains: Seq::empty(),
                allowed_domains: Seq::empty(),
                enable_image_understanding: None,
            }),
    {
        WebSearchTool::new()
    }
}

impl XSearchToolView {
    /// The wire form: the same six settings.
    pub open spec fn wire(self) -> proto::XSearchView {
        proto::XSearchView {
            from_date: self.from_date,
            to_date: self.to_date,
            allowed_x_handles: self.allowed_x_handles,
            excluded_x_handles: self.excluded_x_handles,
            enable_image_understanding: self.enable_image_understanding,
            enable_video_understanding: self.enable_video_understanding,
        }
    }

    /// Search of X posts without restrictions.
    pub open spec fn unrestricted() -> XSearchToolView {
        XSearchToolView {
            from_date: None,
            to_date: None,
            allowed_x_handles: Seq::empty(),
            excluded_x_handles: Seq::empty(),
            enable_image_understanding: None,
            enable_video_understanding: None,
        }
    }
}

impl XSearchTool {
    /// Search of X posts without restrictions.
    pub fn new() -> (tool: Self)
        ensures
            tool@ == XSearchToolView::unrestricted(),
    {
        let tool = XSearchTool {
            from_date: None,
            to_date: None,
            allowed_x_handles: Vec::new(),
            excluded_x_handles: Vec::new(),
            enable_image_understanding: None,
            enable_video_understanding: None,
        };
        assert(tool.allowed_x_handles.deep_view() =~= Seq::empty());
        assert(tool.excluded_x_handles.deep_view() =~= Seq::empty());
        tool
    }

    /// Sets the range of post times; an end left out is open.
    pub fn with_date_range(
        self,
        from: Option<prost_types::Timestamp>,
        to: Option<prost_types::Timestamp>,
    ) -> (tool: Self)
        ensures
            tool@ == (XSearchToolView { from_date: from, to_date: to, ..self@ }),
    {
        let mut tool = self;
        tool.from_date = from;
        tool.to_date = to;
        tool
    }

    /// Sets the handles the results are restricted to.
    pub fn with_allowed_handles(self, handles: Vec<String>) -> (tool: Self)
        ensures
            tool@ == (XSearchToolView { allowed_x_handles: handles.deep_view(), ..self@ }),
    {
        let mut tool = self;
        tool.allowed_x_handles = handles;
        tool
    }

    /// Sets the handles left out of the results.
    pub fn with_excluded_handles(self, handles: Vec<String>) -> (tool: Self)
        ensures
            tool@ == (XSearchToolView { excluded_x_handles: handles.deep_view(), ..self@ }),
    {
        let mut tool = self;
        tool.excluded_x_handles = handles;
        tool
    }

    /// Switches the analysis of images and of videos on or off.
    pub fn with_media_understanding(self, images: bool, videos: bool) -> (tool: Self)
        ensures
            tool@ == (XSearchToolView {
                enable_image_understanding: Some(images),
                enable_video_understanding: Some(videos),
                ..self@
            }),
    {
        let mut tool = self;
        tool.enable_image_understanding = Some(images);
        tool.enable_video_understanding = Some(videos);
        tool
    }

    /// Converts the tool to its wire form.
    pub fn to_proto(&self) -> (wire: proto::XSearch)
        ensures
            wire@ == self@.wire(),
    {
        proto::XSearch {
            from_date: self.from_date,
            to_date: self.to_date,
            allowed_x_handles: copy_strings(&self.allowed_x_handles),
            excluded_x_handles: copy_strings(&self.excluded_x_handles),
            enable_image_understanding: self.enable_image_understanding,
            enable_video_understanding: self.enable_video_understanding,
        }
    }
}

impl Default for XSearchTool {
    fn default() -> (tool: Self)
        ensures
            tool@ == XSearchToolView::unrestricted(),
    {
        XSearchTool::new()
    }
}

impl CollectionsSearchToolView {
    /// The wire form: the same two settings.
    pub open spec fn wire(self) -> proto::CollectionsSearchView {
        proto::CollectionsSearchView { collection_ids: self.collection_ids, limit: self.limit }
    }
}

impl CollectionsSearchTool {
    /// Search of the given collections, without a limit.
    pub fn new(collection_ids: Vec<String>) -> (tool: Self)
        ensures
            tool@ == (CollectionsSearchToolView {
                collection_ids: collection_ids.deep_view(),
                limit: None,
            }),
    {
        CollectionsSearchTool { collection_ids, limit: None }
    }

    /// Sets the number of chunks returned per collection.
    pub fn with_limit(self, limit: i32) -> (tool: Self)
        ensures
            tool@ == (CollectionsSearchToolView { limit: Some(limit), ..self@ }),
    {
        let mut tool = self;
        tool.limit = Some(limit);
        tool
    }

    /// Converts the tool to its wire form.
    pub fn to_proto(&self) -> (wire: proto::CollectionsSearch)
        ensures
            wire@ == self@.wire(),
    {
        proto::CollectionsSearch {
            collection_ids: copy_strings(&self.collection_ids),
            limit: self.limit,
        }
    }
}

impl McpToolView {
    /// The wire form: the same six settings.
    pub open spec fn wire(self) -> proto::McpView {
        proto::McpView {
            server_label: self.server_label,
            server_description: self.server_description,
            server_url: self.server_url,
            allowed_tool_names: self.allowed_tool_names,
            authorization: self.authorization,
            extra_headers: self.extra_headers,
        }
    }
}

impl McpTool {
    /// The server at the given URL, with nothing else set.
    pub fn new(server_url: &str) -> (tool: Self)
        ensures
            tool@ == (McpToolView {
                server_label: Seq::empty(),
                server_description: Seq::empty(),
                server_url: server_url@,
                allowed_tool_names: Seq::empty(),
                authorization: None,
                extra_headers: Map::empty(),
            }),
    {
        let tool = McpTool {
            server_label: String::new(),
            server_description: String::new(),
            server_url: server_url.to_string(),
            allowed_tool_names: Vec::new(),
            authorization: None,
            extra_headers: HashMap::new(),
        };
        proof {
            reveal(vstd::std_specs::hash::hash_map_deep_view_impl);
            assert(tool.allowed_tool_names.deep_view() =~= Seq::empty());
            assert(tool.extra_headers.deep_view() =~= Map::empty());
        }
        tool
    }

    /// Sets the label of the server.
    pub fn with_label(self, label: &str) -> (tool: Self)
        ensures
            tool@ == (McpToolView { server_label: label@, ..self@ }),
    {
        let mut tool = self;
        tool.server_label = label.to_string();
        tool
    }

    /// Sets the description of the server.
    pub fn with_description(self, description: &str) -> (tool: Self)
        ensures
            tool@ == (McpToolView { server_description: description@, ..self@ }),
    {
        let mut tool = self;
        tool.server_description = description.to_string();
        tool
    }

    /// Sets the tools of the server that may be called.
    pub fn with_allowed_tools(self, tools: Vec<String>) -> (tool: Self)
        ensures
            tool@ == (McpToolView { allowed_tool_names: tools.deep_view(), ..self@ }),
    {
        let mut tool = self;
        tool.allowed_tool_names = tools;
        tool
    }

    /// Sets the authorization token.
    pub fn with_authorization(self, token: &str) -> (tool: Self)
        ensures
            tool@ == (McpToolView { authorization: Some(token@), ..self@ }),
    {
        let mut tool = self;
        tool.authorization = Some(token.to_string());
        tool
    }

    /// Sets the headers sent along.
    pub fn with_headers(self, headers: HashMap<String, String>) -> (tool: Self)
        ensures
            tool@ == (McpToolView { extra_headers: headers.deep_view(), ..self@ }),
    {
        let mut tool = self;
        tool.extra_headers = headers;
        tool
    }

    /// Converts the tool to its wire form.
    pub fn to_proto(&self) -> (wire: proto::Mcp)
        ensures
            wire@ == self@.wire(),
    {
        proto::Mcp {
            server_label: self.server_label.clone(),
            server_description: self.server_description.clone(),
            server_url: self.server_url.clone(),
            allowed_tool_names: copy_strings(&self.allowed_tool_names),
            authorization: copy_optional_string(&self.authorization),
            extra_headers: copy_string_map(&self.extra_headers),
        }
    }
}

impl DocumentSearchToolView {
    /// The wire form: the same setting.
    pub open spec fn wire(self) -> proto::DocumentSearchView {
        proto::DocumentSearchView { limit: self.limit }
    }
}

impl DocumentSearchTool {
    /// Document retrieval without a limit.
    pub fn new() -> (tool: Self)
        ensures
            tool@ == (DocumentSearchToolView { limit: None }),
    {
        DocumentSearchTool { limit: None }
    }

    /// Sets the number of files the search is limited to.
    pub fn with_limit(self, limit: i32) -> (tool: Self)
        ensures
            tool@ == (DocumentSearchToolView { limit: Some(limit) }),
    {
        let mut tool = self;
        tool.limit = Some(limit);
        tool
    }

    /// Converts the tool to its wire form.
    pub fn to_proto(&self) -> (wire: proto::DocumentSearch)
        ensures
            wire@ == self@.wire(),
    {
        proto::DocumentSearch { limit: self.limit }
    }
}

impl Default for DocumentSearchTool {
    fn default() -> (tool: Self)
        ensures
            tool@ == (DocumentSearchToolView { limit: None }),
    {
        DocumentSearchTool::new()
    }
}

impl ToolChoiceView {
    /// The wire form: a general mode, or the name of the one function.
    pub open spec fn wire(self) -> proto::ToolChoiceView {
        proto::ToolChoiceView {
            tool_choice: Some(
                match self {
                    ToolChoiceView::Auto => proto::tool_choice::ToolChoiceView::Mode(
                        ToolMode::Auto.code_spec(),
                    ),
                    ToolChoiceView::Required => proto::tool_choice::ToolChoiceView::Mode(
                        ToolMode::Required.code_spec(),
                    ),
                    ToolChoiceView::Function(name) => proto::tool_choice::ToolChoiceView::FunctionName(
                        name,
                    ),
                },
            ),
        }
    }
}

impl ToolChoice {
    /// Converts the policy to its wire form.
    pub fn to_proto(&self) -> (wire: proto::ToolChoice)
        ensures
            wire@ == self@.wire(),
    {
        let tool_choice = match self {
            ToolChoice::Auto => proto::tool_choice::ToolChoice::Mode(ToolMode::Auto.code()),
            ToolChoice::Required => proto::tool_choice::ToolChoice::Mode(ToolMode::Required.code()),
            ToolChoice::Function(name) => proto::tool_choice::ToolChoice::FunctionName(name.clone()),
        };
        proto::ToolChoice { tool_choice: Some(tool_choice) }
    }
}

impl ToolCallView {
    /// The wire form of a tool call: a function call with the codes of its
    /// kind and state.
    pub open spec fn wire(self) -> proto::ToolCallView {
        proto::ToolCallView {
            id: self.id,
            call_type: self.call_type.wire_type().code_spec(),
            status: self.status.wire_status().code_spec(),
            error_message: self.error_message,
            tool: Some(
                proto::tool_call::ToolView::Function(
                    proto::FunctionCallView {
                        name: self.function.name,
                        arguments: self.function.arguments,
                    },
                ),
            ),
        }
    }

    /// The tool call that a wire message stands for: none when the message
    /// carries no call, else the call with kind and state decoded.
    pub open spec fn from_wire(wire: proto::ToolCallView) -> Option<ToolCallView> {
        match wire.tool {
            None => None,
            Some(proto::tool_call::ToolView::Function(f)) => Some(
                ToolCallView {
                    id: wire.id,
                    call_type: ToolCallKind::from_code(wire.call_type),
                    status: ToolCallStatusKind::from_code(wire.status),
                    error_message: wire.error_message,
                    function: FunctionCallView { name: f.name, arguments: f.arguments },
                },
            ),
        }
    }
}

impl ToolCall {
    /// Decodes a tool call from its wire form. A message without a call gives
    /// `None`; an unknown kind or state never makes decoding fail.
    pub fn from_proto(proto: proto::ToolCall) -> (call: Option<Self>)
        ensures
            call.deep_view() == ToolCallView::from_wire(proto@),
    {
        let function = match proto.tool {
            None => {
                return None;
            },
            Some(proto::tool_call::Tool::Function(f)) => FunctionCall {
                name: f.name,
                arguments: f.arguments,
            },
        };
        Some(
            ToolCall {
                id: proto.id,
                call_type: ToolCallKind::from_proto(proto.call_type),
                status: ToolCallStatusKind::from_proto(proto.status),
                error_message: proto.error_message,
                function,
            },
        )
    }

    /// Decodes a tool call from a wire message that stays with the caller.
    pub fn from_proto_ref(proto: &proto::ToolCall) -> (call: Option<Self>)
        ensures
            call.deep_view() == ToolCallView::from_wire(proto@),
    {
        match &proto.tool {
            None => None,
            Some(proto::tool_call::Tool::Function(f)) => Some(
                ToolCall {
                    id: proto.id.clone(),
                    call_type: ToolCallKind::from_proto(proto.call_type),
                    status: ToolCallStatusKind::from_proto(proto.status),
                    error_message: copy_optional_string(&proto.error_message),
                    function: FunctionCall {
                        name: f.name.clone(),
                        arguments: f.arguments.clone(),
                    },
                },
            ),
        }
    }

    /// Converts the tool call to its wire form.
    pub fn to_proto(&self) -> (wire: proto::ToolCall)
        ensures
            wire@ == self@.wire(),
    {
        proto::ToolCall {
            id: self.id.clone(),
            call_type: self.call_type.to_proto().code(),
            status: self.status.to_proto().code(),
            error_message: copy_optional_string(&self.error_message),
            tool: Some(
                proto::tool_call::Tool::Function(
                    proto::FunctionCall {
                        name: self.function.name.clone(),
                        arguments: self.function.arguments.clone(),
                    },
                ),
            ),
        }
    }
}

impl ToolCallKind {
    /// The kind that a wire code stands for; any code without a kind of its
    /// own stands for `Unknown`.
    pub open spec fn from_code(code: i32) -> ToolCallKind {
        match ToolCallType::from_code_spec(code) {
            Some(ToolCallType::ClientSideTool) => ToolCallKind::ClientSideTool,
            Some(ToolCallType::WebSearchTool) => ToolCallKind::WebSearchTool,
            Some(ToolCallType::XSearchTool) => ToolCallKind::XSearchTool,
            Some(ToolCallType::CodeExecutionTool) => ToolCallKind::CodeExecutionTool,
            Some(ToolCallType::CollectionsSearchTool) => ToolCallKind::CollectionsSearchTool,
            Some(ToolCallType::McpTool) => ToolCallKind::McpTool,
            _ => ToolCallKind::Unknown,
        }
    }

    /// The wire value of a kind; `Unknown` goes out as the invalid value.
    pub open spec fn wire_type(self) -> ToolCallType {
        match self {
            ToolCallKind::ClientSideTool => ToolCallType::ClientSideTool,
            ToolCallKind::WebSearchTool => ToolCallType::WebSearchTool,
            ToolCallKind::XSearchTool => ToolCallType::XSearchTool,
            ToolCallKind::CodeExecutionTool => ToolCallType::CodeExecutionTool,
            ToolCallKind::CollectionsSearchTool => ToolCallType::CollectionsSearchTool,
            ToolCallKind::McpTool => ToolCallType::McpTool,
            ToolCallKind::Unknown => ToolCallType::Invalid,
        }
    }

    /// Decodes a kind from its wire code.
    pub fn from_proto(value: i32) -> (kind: Self)
        ensures
            kind == Self::from_code(value),
    {
        match ToolCallType::from_code(value) {
            Some(ToolCallType::ClientSideTool) => ToolCallKind::ClientSideTool,
            Some(ToolCallType::WebSearchTool) => ToolCallKind::WebSearchTool,
            Some(ToolCallType::XSearchTool) => ToolCallKind::XSearchTool,
            Some(ToolCallType::CodeExecutionTool) => ToolCallKind::CodeExecutionTool,
            Some(ToolCallType::CollectionsSearchTool) => ToolCallKind::CollectionsSearchTool,
            Some(ToolCallType::McpTool) => ToolCallKind::McpTool,
            _ => ToolCallKind::Unknown,
        }
    }

    /// The wire value of the kind.
    pub fn to_proto(&self) -> (wire: ToolCallType)
        ensures
            wire == self.wire_type(),
    {
        match self {
            ToolCallKind::ClientSideTool => ToolCallType::ClientSideTool,
            ToolCallKind::WebSearchTool => ToolCallType::WebSearchTool,
            ToolCallKind::XSearchTool => ToolCallType::XSearchTool,
            ToolCallKind::CodeExecutionTool => ToolCallType::CodeExecutionTool,
            ToolCallKind::CollectionsSearchTool => ToolCallType::CollectionsSearchTool,
            ToolCallKind::McpTool => ToolCallType::McpTool,
            ToolCallKind::Unknown => ToolCallType::Invalid,
        }
    }
}

impl ToolCallStatusKind {
    /// The state that a wire code stands for; any code without a state of its
    /// own stands for `Unknown`.
    pub open spec fn from_code(code: i32) -> ToolCallStatusKind {
        match ToolCallStatus::from_code_spec(code) {
            Some(ToolCallStatus::InProgress) => ToolCallStatusKind::InProgress,
            Some(ToolCallStatus::Completed) => ToolCallStatusKind::Completed,
            Some(ToolCallStatus::Incomplete) => ToolCallStatusKind::Incomplete,
            Some(ToolCallStatus::Failed) => ToolCallStatusKind::Failed,
            None => ToolCallStatusKind::Unknown,
        }
    }

    /// The wire value of a state. The wire has no value for an unknown
    /// state: it goes out as the value that the wire takes for a state that
    /// is not given, `InProgress`.
    pub open spec fn wire_status(self) -> ToolCallStatus {
        match self {
            ToolCallStatusKind::InProgress => ToolCallStatus::InProgress,
            ToolCallStatusKind::Completed => ToolCallStatus::Completed,
            ToolCallStatusKind::Incomplete => ToolCallStatus::Incomplete,
            ToolCallStatusKind::Failed => ToolCallStatus::Failed,
            ToolCallStatusKind::Unknown => ToolCallStatus::InProgress,
        }
    }

    /// Decodes a state from its wire code. Total: a code outside the table
    /// decodes to `Unknown`.
    pub fn from_proto(value: i32) -> (status: Self)
        ensures
            status == Self::from_code(value),
    {
        match ToolCallStatus::from_code(value) {
            Some(ToolCallStatus::InProgress) => ToolCallStatusKind::InProgress,
            Some(ToolCallStatus::Completed) => ToolCallStatusKind::Completed,
            Some(ToolCallStatus::Incomplete) => ToolCallStatusKind::Incomplete,
            Some(ToolCallStatus::Failed) => ToolCallStatusKind::Failed,
            None => ToolCallStatusKind::Unknown,
        }
    }

    /// The wire value of the state.
    pub fn to_proto(&self) -> (wire: ToolCallStatus)
        ensures
            wire == self.wire_status(),
    {
        match self {
            ToolCallStatusKind::InProgress => ToolCallStatus::InProgress,
            ToolCallStatusKind::Completed => ToolCallStatus::Completed,
            ToolCallStatusKind::Incomplete => ToolCallStatus::Incomplete,
            ToolCallStatusKind::Failed => ToolCallStatus::Failed,
            ToolCallStatusKind::Unknown => ToolCallStatus::InProgress,
        }
    }
}

impl FunctionCall {
    /// Parses the arguments as JSON. Succeeds exactly when the argument text
    /// is one JSON document; the value then renders to the parsed text.
    pub fn arguments_json(&self) -> (parsed: Result<serde_json::Value, serde_json::Error>)
        ensures
            match parsed {
                Ok(value) => json_parsed_text(self.arguments@) == Some(json_text(value)),
                Err(_) => json_parsed_text(self.arguments@) is None,
            },
    {
        parse(self.arguments.as_str())
    }
}

/// Encoding a tool call and decoding the result keeps the identifier, the
/// kind, the error message, the function name and the arguments exactly,
/// whatever the call. The state is kept too, unless it is `Unknown`, which
/// the wire cannot say and which comes back as `InProgress`.
pub proof fn lemma_tool_call_round_trip(call: ToolCallView)
    ensures
        ToolCallView::from_wire(call.wire()) matches Some(back) && back.id == call.id
            && back.call_type == call.call_type && back.error_message == call.error_message
            && back.function == call.function,
        call.status != ToolCallStatusKind::Unknown ==> ToolCallView::from_wire(call.wire())
            == Some(call),
        call.status == ToolCallStatusKind::Unknown ==> ToolCallView::from_wire(call.wire())
            == Some(ToolCallView { status: ToolCallStatusKind::InProgress, ..call }),
{
}

/// A kind code outside the table of kinds, and the invalid code 0, decode to
/// `Unknown`; the codes of the table decode to the six kinds.
pub proof fn lemma_unknown_kind_codes_decode(code: i32)
    ensures
        code < 1 || code > 6 ==> ToolCallKind::from_code(code) == ToolCallKind::Unknown,
        1 <= code <= 6 ==> ToolCallKind::from_code(code) != ToolCallKind::Unknown,
{
}

/// A state code outside the table of states decodes to `Unknown`; the codes
/// of the table decode to the four states.
pub proof fn lemma_unknown_status_codes_decode(code: i32)
    ensures
        code < 0 || code > 3 ==> ToolCallStatusKind::from_code(code) == ToolCallStatusKind::Unknown,
        0 <= code <= 3 ==> ToolCallStatusKind::from_code(code) != ToolCallStatusKind::Unknown,
{
}

} // verus!
