//! The tools that the host offers: their table, the reading of a call and
//! the reply to it.

use crate::html::{
    document_texts, option_texts_view, root_texts, select_texts, selected_texts,
};
use crate::json::{
    empty_object, entries_view, items_view, lemma_array_view, lemma_member_at, option_view,
    push_member, text_array, Json, JsonValue,
};
use crate::pattern::{replace_all, replaced_all};
use crate::records::{
    match_input_of_json, match_json, matches_view, JobMatch, JobMatchInput, MatchModel,
};
use crate::settings::{
    default_settings, settings_json, settings_of_json, JobSettings, SettingsModel,
};
use crate::stamp::{current_timestamp, fresh_identity, IDENTITY_CHARS, TIMESTAMP_CHARS};
use crate::text::{
    decimal, first_chars, join, joined, lemma_truncated_fits, strings_view, take_chars, text_is,
    trim, trimmed, truncate, truncated, utf8_len,
};
use vstd::prelude::*;
use vstd::string::StringExecFns;

verus! {

/// A tool as the host describes it: its name, what it does, and the shape
/// of its arguments, which is advice and is not enforced.
#[derive(Debug)]
pub struct ToolDefinition {
    pub name: String,
    pub description: String,
    pub input_schema: Json,
}

/// The mathematical model of `ToolDefinition`.
pub struct ToolModel {
    pub name: Seq<char>,
    pub description: Seq<char>,
    pub input_schema: JsonValue,
}

impl View for ToolDefinition {
    type V = ToolModel;

    open spec fn view(&self) -> ToolModel {
        ToolModel {
            name: self.name@,
            description: self.description@,
            input_schema: self.input_schema@,
        }
    }
}

/// The models of a sequence of definitions.
pub open spec fn definitions_view(definitions: Seq<ToolDefinition>) -> Seq<ToolModel> {
    Seq::new(definitions.len(), |i: int| definitions[i]@)
}

/// The schema of a value of the JSON type `kind`.
pub open spec fn typed(kind: Seq<char>) -> JsonValue {
    JsonValue::Object(seq![("type"@, JsonValue::Text(kind))])
}

/// The schema of an object with the properties `properties`.
pub open spec fn schema_with(properties: Seq<(Seq<char>, JsonValue)>) -> JsonValue {
    JsonValue::Object(
        seq![("type"@, JsonValue::Text("object"@)), ("properties"@, JsonValue::Object(properties))],
    )
}

/// The schema of an object with the properties `properties`, of which those
/// named in `required` must be there.
pub open spec fn schema_requiring(
    properties: Seq<(Seq<char>, JsonValue)>,
    required: Seq<Seq<char>>,
) -> JsonValue {
    JsonValue::Object(
        seq![
            ("type"@, JsonValue::Text("object"@)),
            ("properties"@, JsonValue::Object(properties)),
            ("required"@, text_array(required)),
        ],
    )
}

/// The table of the tools, in the order in which the host lists them.
pub open spec fn tool_table() -> Seq<ToolModel> {
    seq![
        ToolModel {
            name: "set_query_params"@,
            description: "Update the UI query parameters for the current analysis."@,
            input_schema: schema_with(
                seq![("url"@, typed("string"@)), ("analysisId"@, typed("string"@))],
            ),
        },
        ToolModel {
            name: "fetch_content"@,
            description: "Retrieve HTML content for a given URL."@,
            input_schema: schema_requiring(
                seq![("url"@, typed("string"@)), ("maxLength"@, typed("number"@))],
                seq!["url"@],
            ),
        },
        ToolModel {
            name: "reload_page"@,
            description: "Reload the current webview."@,
            input_schema: typed("object"@),
        },
        ToolModel {
            name: "get_settings"@,
            description: "Load job-search settings from the Tauri store."@,
            input_schema: typed("object"@),
        },
        ToolModel {
            name: "set_settings"@,
            description: "Persist job-search settings to the Tauri store."@,
            input_schema: schema_with(seq![("settings"@, typed("object"@))]),
        },
        ToolModel {
            name: "save_job_match"@,
            description: "Save a job match to SQLite."@,
            input_schema: schema_with(
                seq![
                    ("analysis_id"@, typed("string"@)),
                    ("url"@, typed("string"@)),
                    ("title"@, typed("string"@)),
                    ("company"@, typed("string"@)),
                    ("location"@, typed("string"@)),
                    ("match_score"@, typed("number"@)),
                    ("summary"@, typed("string"@)),
                    ("raw_excerpt"@, typed("string"@)),
                ],
            ),
        },
        ToolModel {
            name: "list_job_matches"@,
            description: "List recent job matches."@,
            input_schema: schema_with(seq![("limit"@, typed("number"@))]),
        },
        ToolModel {
            name: "clear_job_matches"@,
            description: "Clear saved job matches."@,
            input_schema: typed("object"@),
        },
    ]
}

/// The JSON form of a tool definition.
pub open spec fn definition_json(tool: ToolModel) -> JsonValue {
    JsonValue::Object(
        seq![
            ("name"@, JsonValue::Text(tool.name)),
            ("description"@, JsonValue::Text(tool.description)),
            ("inputSchema"@, tool.input_schema),
        ],
    )
}

/// The JSON forms of a sequence of tool definitions.
pub open spec fn definitions_json(tools: Seq<ToolModel>) -> Seq<JsonValue> {
    Seq::new(tools.len(), |i: int| definition_json(tools[i]))
}

/// The schema of a value of the JSON type `kind`.
fn typed_schema(kind: &str) -> (r: Json)
    ensures
        r@ == typed(kind@),
{
    let mut entries: Vec<(String, Json)> = Vec::new();
    assert(entries_view(entries@) =~= Seq::empty());
    push_member(&mut entries, "type", Json::text(kind));
    let r = Json::object(entries);
    assert(r@->Object_0 =~= typed(kind@)->Object_0);
    r
}

/// Appends the property `name` of the JSON type `kind` to the properties of
/// a schema under construction.
fn push_property(properties: &mut Vec<(String, Json)>, name: &str, kind: &str)
    ensures
        entries_view(final(properties)@) == entries_view(old(properties)@).push(
            (name@, typed(kind@)),
        ),
{
    push_member(properties, name, typed_schema(kind));
}

/// The schema of an object with the properties `properties`.
fn object_schema(properties: Vec<(String, Json)>) -> (r: Json)
    ensures
        r@ == schema_with(entries_view(properties@)),
{
    let mut entries: Vec<(String, Json)> = Vec::new();
    assert(entries_view(entries@) =~= Seq::empty());
    push_member(&mut entries, "type", Json::text("object"));
    push_member(&mut entries, "properties", Json::object(properties));
    let r = Json::object(entries);
    assert(r@->Object_0 =~= schema_with(entries_view(properties@))->Object_0);
    r
}

/// The schema of an object with the properties `properties`, of which those
/// named in `required` must be there.
fn object_schema_requiring(properties: Vec<(String, Json)>, required: &Vec<String>) -> (r: Json)
    ensures
        r@ == schema_requiring(entries_view(properties@), strings_view(required@)),
{
    let mut entries: Vec<(String, Json)> = Vec::new();
    assert(entries_view(entries@) =~= Seq::empty());
    push_member(&mut entries, "type", Json::text("object"));
    push_member(&mut entries, "properties", Json::object(properties));
    push_member(&mut entries, "required", Json::text_list(required));
    let r = Json::object(entries);
    assert(r@->Object_0 =~= schema_requiring(
        entries_view(properties@),
        strings_view(required@),
    )->Object_0);
    r
}

/// The definition of the tool `name`.
fn define(name: &str, description: &str, input_schema: Json) -> (r: ToolDefinition)
    ensures
        r@ == (ToolModel {
            name: name@,
            description: description@,
            input_schema: input_schema@,
        }),
{
    ToolDefinition { name: name.to_owned(), description: description.to_owned(), input_schema }
}

/// The properties of the arguments of `save_job_match`.
fn match_properties() -> (r: Vec<(String, Json)>)
    ensures
        entries_view(r@) == seq![
            ("analysis_id"@, typed("string"@)),
            ("url"@, typed("string"@)),
            ("title"@, typed("string"@)),
            ("company"@, typed("string"@)),
            ("location"@, typed("string"@)),
            ("match_score"@, typed("number"@)),
            ("summary"@, typed("string"@)),
            ("raw_excerpt"@, typed("string"@)),
        ],
{
    let mut properties: Vec<(String, Json)> = Vec::new();
    assert(entries_view(properties@) =~= Seq::empty());
    push_property(&mut properties, "analysis_id", "string");
    push_property(&mut properties, "url", "string");
    push_property(&mut properties, "title", "string");
    push_property(&mut properties, "company", "string");
    push_property(&mut properties, "location", "string");
    push_property(&mut properties, "match_score", "number");
    push_property(&mut properties, "summary", "string");
    push_property(&mut properties, "raw_excerpt", "string");
    properties
}

/// The table of the tools that the host offers, in the order in which it
/// lists them.
pub fn tool_definitions() -> (r: Vec<ToolDefinition>)
    ensures
        definitions_view(r@) == tool_table(),
{
    let mut query: Vec<(String, Json)> = Vec::new();
    assert(entries_view(query@) =~= Seq::empty());
    push_property(&mut query, "url", "string");
    push_property(&mut query, "analysisId", "string");
    assert(entries_view(query@) == seq![
        ("url"@, typed("string"@)),
        ("analysisId"@, typed("string"@)),
    ]);

    let mut fetch: Vec<(String, Json)> = Vec::new();
    assert(entries_view(fetch@) =~= Seq::empty());
    push_property(&mut fetch, "url", "string");
    push_property(&mut fetch, "maxLength", "number");
    assert(entries_view(fetch@) == seq![
        ("url"@, typed("string"@)),
        ("maxLength"@, typed("number"@)),
    ]);
    let fetch_required: Vec<String> = vec!["url".to_owned()];
    assert(strings_view(fetch_required@) =~= seq!["url"@]);

    let mut settings: Vec<(String, Json)> = Vec::new();
    assert(entries_view(settings@) =~= Seq::empty());
    push_property(&mut settings, "settings", "object");

    let mut list: Vec<(String, Json)> = Vec::new();
    assert(entries_view(list@) =~= Seq::empty());
    push_property(&mut list, "limit", "number");

    let tools: Vec<ToolDefinition> = vec![
        define(
            "set_query_params",
            "Update the UI query parameters for the current analysis.",
            object_schema(query),
        ),
        define(
            "fetch_content",
            "Retrieve HTML content for a given URL.",
            object_schema_requiring(fetch, &fetch_required),
        ),
        define("reload_page", "Reload the current webview.", typed_schema("object")),
        define(
            "get_settings",
            "Load job-search settings from the Tauri store.",
            typed_schema("object"),
        ),
        define(
            "set_settings",
            "Persist job-search settings to the Tauri store.",
            object_schema(settings),
        ),
        define("save_job_match", "Save a job match to SQLite.", object_schema(match_properties())),
        define("list_job_matches", "List recent job matches.", object_schema(list)),
        define("clear_job_matches", "Clear saved job matches.", typed_schema("object")),
    ];
    proof {
        let made = definitions_view(tools@);
        let table = tool_table();
        assert(made.len() == 8 && table.len() == 8);
        assert(made[0] == table[0]);
        assert(made[1] == table[1]);
        assert(made[2] == table[2]);
        assert(made[3] == table[3]);
        assert(made[4] == table[4]);
        assert(made[5] == table[5]);
        assert(made[6] == table[6]);
        assert(made[7] == table[7]);
        assert(made =~= table);
    }
    tools
}

impl ToolDefinition {
    /// The JSON form of this definition.
    pub fn to_json(&self) -> (r: Json)
        ensures
            r@ == definition_json(self@),
    {
        let mut entries: Vec<(String, Json)> = Vec::new();
        assert(entries_view(entries@) =~= Seq::empty());
        push_member(&mut entries, "name", Json::text(self.name.as_str()));
        push_member(&mut entries, "description", Json::text(self.description.as_str()));
        push_member(&mut entries, "inputSchema", self.input_schema.clone());
        let r = Json::object(entries);
        assert(r@->Object_0 =~= definition_json(self@)->Object_0);
        r
    }
}

/// The JSON form of the table of the tools: the array of the definitions.
pub fn tool_definitions_json() -> (r: Json)
    ensures
        r@ == JsonValue::Array(definitions_json(tool_table())),
{
    let tools = tool_definitions();
    let mut items: Vec<Json> = Vec::new();
    let mut i: usize = 0;
    while i < tools.len()
        invariant
            i <= tools@.len(),
            items@.len() == i,
            forall|k: int| 0 <= k < i ==> (#[trigger] items@[k])@ == definition_json(tools@[k]@),
        decreases tools@.len() - i,
    {
        items.push(tools[i].to_json());
        i += 1;
    }
    proof {
        lemma_array_view(items);
        assert(items_view(items@) =~= definitions_json(definitions_view(tools@)));
    }
    Json::Array(items)
}

/// The number of bytes of a page that are kept where a call names none.
pub const DEFAULT_PAGE_BYTES: usize = 60_000;

/// The number of characters that the text of a page may hold.
pub const TEXT_CHARS: usize = 2_000;

/// The number of matches that are listed where a call names none.
pub const DEFAULT_LIST_LIMIT: usize = 50;

/// A call of a tool, its arguments read and checked.
#[derive(Debug)]
pub enum ToolCall {
    SetQueryParams { payload: Json },
    FetchContent { url: String, max_length: usize },
    ReloadPage,
    GetSettings,
    SetSettings { settings: JobSettings },
    SaveJobMatch { record: JobMatch },
    ListJobMatches { limit: usize },
    ClearJobMatches,
}

/// The mathematical model of `ToolCall`.
pub enum CallModel {
    SetQueryParams { payload: JsonValue },
    FetchContent { url: Seq<char>, max_length: usize },
    ReloadPage,
    GetSettings,
    SetSettings { settings: SettingsModel },
    SaveJobMatch { record: MatchModel },
    ListJobMatches { limit: usize },
    ClearJobMatches,
}

impl View for ToolCall {
    type V = CallModel;

    open spec fn view(&self) -> CallModel {
        match self {
            ToolCall::SetQueryParams { payload } => CallModel::SetQueryParams { payload: payload@ },
            ToolCall::FetchContent { url, max_length } => CallModel::FetchContent {
                url: url@,
                max_length: *max_length,
            },
            ToolCall::ReloadPage => CallModel::ReloadPage,
            ToolCall::GetSettings => CallModel::GetSettings,
            ToolCall::SetSettings { settings } => CallModel::SetSettings { settings: settings@ },
            ToolCall::SaveJobMatch { record } => CallModel::SaveJobMatch { record: record@ },
            ToolCall::ListJobMatches { limit } => CallModel::ListJobMatches { limit: *limit },
            ToolCall::ClearJobMatches => CallModel::ClearJobMatches,
        }
    }
}

/// Why a call of a tool failed: the host has no tool of that name, the
/// arguments do not have the shape that the tool asks for, or the work
/// behind the call failed.
#[derive(Debug)]
pub enum ToolError {
    UnknownTool { name: String },
    Validation { message: String },
    Execution { message: String },
}

/// The mathematical model of `ToolError`.
pub enum ErrorModel {
    UnknownTool { name: Seq<char> },
    Validation { message: Seq<char> },
    Execution { message: Seq<char> },
}

impl View for ToolError {
    type V = ErrorModel;

    open spec fn view(&self) -> ErrorModel {
        match self {
            ToolError::UnknownTool { name } => ErrorModel::UnknownTool { name: name@ },
            ToolError::Validation { message } => ErrorModel::Validation { message: message@ },
            ToolError::Execution { message } => ErrorModel::Execution { message: message@ },
        }
    }
}

/// The message of a call of a tool that the host does not have.
pub open spec fn unknown_tool(name: Seq<char>) -> Seq<char> {
    "unknown tool: "@ + name
}

impl ErrorModel {
    /// The message that reports the error to the caller.
    pub open spec fn message(self) -> Seq<char> {
        match self {
            ErrorModel::UnknownTool { name } => unknown_tool(name),
            ErrorModel::Validation { message } => message,
            ErrorModel::Execution { message } => message,
        }
    }
}

/// The error of arguments without the shape that the tool asks for.
pub open spec fn refused(message: Seq<char>) -> ErrorModel {
    ErrorModel::Validation { message }
}

/// The error of work that failed.
pub open spec fn failed(message: Seq<char>) -> ErrorModel {
    ErrorModel::Execution { message }
}

/// The model of a result or of the error in its place.
pub open spec fn result_view(r: Result<Json, ToolError>) -> Result<JsonValue, ErrorModel> {
    match r {
        Ok(json) => Ok(json@),
        Err(error) => Err(error@),
    }
}

impl ToolError {
    /// The message that reports the error to the caller.
    pub fn message(&self) -> (r: String)
        ensures
            r@ == self@.message(),
    {
        match self {
            ToolError::UnknownTool { name } => {
                let mut message = "unknown tool: ".to_owned();
                message.append(name.as_str());
                message
            },
            ToolError::Validation { message } => message.clone(),
            ToolError::Execution { message } => message.clone(),
        }
    }
}

/// The error of arguments without the shape that the tool asks for.
fn refuse(message: &str) -> (r: ToolError)
    ensures
        r@ == refused(message@),
{
    ToolError::Validation { message: message.to_owned() }
}

/// What the work behind a call brought: nothing to hand back, a fetched
/// page, what the settings store holds, the stored matches with the newest
/// first, or the message of a failure.
#[derive(Debug)]
pub enum ToolOutcome {
    Done,
    Page { status: u16, body: String },
    Settings(Option<Json>),
    Matches(Vec<JobMatch>),
    Failed(String),
}

/// The mathematical model of `ToolOutcome`.
pub enum OutcomeModel {
    Done,
    Page { status: u16, body: Seq<char> },
    Settings(Option<JsonValue>),
    Matches(Seq<MatchModel>),
    Failed(Seq<char>),
}

impl View for ToolOutcome {
    type V = OutcomeModel;

    open spec fn view(&self) -> OutcomeModel {
        match self {
            ToolOutcome::Done => OutcomeModel::Done,
            ToolOutcome::Page { status, body } => OutcomeModel::Page { status: *status, body: body@ },
            ToolOutcome::Settings(None) => OutcomeModel::Settings(None),
            ToolOutcome::Settings(Some(stored)) => OutcomeModel::Settings(Some(stored@)),
            ToolOutcome::Matches(matches) => OutcomeModel::Matches(matches_view(matches@)),
            ToolOutcome::Failed(message) => OutcomeModel::Failed(message@),
        }
    }
}

/// An event for the user interface. Whether it arrives is not reported.
#[derive(Debug)]
pub struct Notification {
    pub event: String,
    pub payload: Json,
}

/// The mathematical model of `Notification`.
pub struct NotificationModel {
    pub event: Seq<char>,
    pub payload: JsonValue,
}

impl View for Notification {
    type V = NotificationModel;

    open spec fn view(&self) -> NotificationModel {
        NotificationModel { event: self.event@, payload: self.payload@ }
    }
}

/// The reply to a call: its result or the message of its error, and the
/// event to send with it.
#[derive(Debug)]
pub struct ToolReply {
    pub result: Result<Json, ToolError>,
    pub notification: Option<Notification>,
}

/// The mathematical model of `ToolReply`.
pub struct ReplyModel {
    pub result: Result<JsonValue, ErrorModel>,
    pub notification: Option<NotificationModel>,
}

impl View for ToolReply {
    type V = ReplyModel;

    open spec fn view(&self) -> ReplyModel {
        ReplyModel {
            result: result_view(self.result),
            notification: match self.notification {
                Some(n) => Some(n@),
                None => None,
            },
        }
    }
}

/// The names of the tools, in the order of the table.
pub open spec fn tool_names() -> Seq<Seq<char>> {
    seq![
        "set_query_params"@,
        "fetch_content"@,
        "reload_page"@,
        "get_settings"@,
        "set_settings"@,
        "save_job_match"@,
        "list_job_matches"@,
        "clear_job_matches"@,
    ]
}

/// `name` is the name of a tool.
pub open spec fn is_tool(name: Seq<char>) -> bool {
    tool_names().contains(name)
}

/// What a call of `set_query_params` sends on: the `url` and `analysisId`
/// of its arguments, `null` where one is missing.
pub open spec fn query_payload(arguments: JsonValue) -> JsonValue {
    JsonValue::Object(
        seq![
            ("url"@, arguments.member_or("url"@, JsonValue::Null)),
            ("analysisId"@, arguments.member_or("analysisId"@, JsonValue::Null)),
        ],
    )
}

/// The string argument `key`, where there is one.
pub open spec fn text_argument(arguments: JsonValue, key: Seq<char>) -> Option<Seq<char>> {
    match arguments.member(key) {
        Some(value) => value.text(),
        None => None,
    }
}

/// The count that the argument `key` gives: its value cut to what `usize`
/// holds, or `fallback` where it is missing or no whole number from zero on.
pub open spec fn count_argument(arguments: JsonValue, key: Seq<char>, fallback: usize) -> usize {
    match arguments.member(key) {
        Some(value) => match value.unsigned() {
            Some(n) => if n > usize::MAX {
                usize::MAX
            } else {
                n as usize
            },
            None => fallback,
        },
        None => fallback,
    }
}

/// The call that a name and arguments make, where `id` and `created_at`
/// are the identity and the creation time that a new record is to get; or
/// the message of the error: a missing `url`, arguments without the shape
/// that the tool asks for, a name that is no tool's.
pub open spec fn call_of(
    name: Seq<char>,
    arguments: JsonValue,
    id: Seq<char>,
    created_at: Seq<char>,
) -> Result<CallModel, ErrorModel> {
    if name == "set_query_params"@ {
        Ok(CallModel::SetQueryParams { payload: query_payload(arguments) })
    } else if name == "fetch_content"@ {
        match text_argument(arguments, "url"@) {
            Some(url) => Ok(
                CallModel::FetchContent {
                    url,
                    max_length: count_argument(arguments, "maxLength"@, DEFAULT_PAGE_BYTES),
                },
            ),
            None => Err(refused("url is required"@)),
        }
    } else if name == "reload_page"@ {
        Ok(CallModel::ReloadPage)
    } else if name == "get_settings"@ {
        Ok(CallModel::GetSettings)
    } else if name == "set_settings"@ {
        match settings_of_json(arguments.member_or("settings"@, empty_object())) {
            Some(settings) => Ok(CallModel::SetSettings { settings }),
            None => Err(refused("settings parse: not the shape of settings"@)),
        }
    } else if name == "save_job_match"@ {
        match match_input_of_json(arguments) {
            Some(input) => Ok(
                CallModel::SaveJobMatch { record: MatchModel { id, created_at, input } },
            ),
            None => Err(refused("job match parse: not the shape of a job match"@)),
        }
    } else if name == "list_job_matches"@ {
        Ok(
            CallModel::ListJobMatches {
                limit: count_argument(arguments, "limit"@, DEFAULT_LIST_LIMIT),
            },
        )
    } else if name == "clear_job_matches"@ {
        Ok(CallModel::ClearJobMatches)
    } else {
        Err(ErrorModel::UnknownTool { name })
    }
}

/// The model of a call or the message of its error.
pub open spec fn call_result_view(r: Result<ToolCall, ToolError>) -> Result<
    CallModel,
    ErrorModel,
> {
    match r {
        Ok(call) => Ok(call@),
        Err(error) => Err(error@),
    }
}

/// The count that the argument `key` gives.
fn read_count(arguments: &Json, key: &str, fallback: usize) -> (r: usize)
    ensures
        r == count_argument(arguments@, key@, fallback),
{
    match arguments.get(key) {
        Some(value) => match value.as_u64() {
            Some(n) => {
                if n > usize::MAX as u64 {
                    usize::MAX
                } else {
                    n as usize
                }
            },
            None => fallback,
        },
        None => fallback,
    }
}

/// Reads a call: checks the name against the table and the arguments
/// against what the tool asks for. A new record gets the identity `id` and
/// the creation time `created_at`.
pub fn read_call(name: &str, arguments: &Json, id: String, created_at: String) -> (r: Result<
    ToolCall,
    ToolError,
>)
    ensures
        call_result_view(r) == call_of(name@, arguments@, id@, created_at@),
{
    if text_is(name, "set_query_params") {
        let mut entries: Vec<(String, Json)> = Vec::new();
        assert(entries_view(entries@) =~= Seq::empty());
        push_member(&mut entries, "url", arguments.get_or_null("url"));
        push_member(&mut entries, "analysisId", arguments.get_or_null("analysisId"));
        let payload = Json::object(entries);
        assert(payload@->Object_0 =~= query_payload(arguments@)->Object_0);
        Ok(ToolCall::SetQueryParams { payload })
    } else if text_is(name, "fetch_content") {
        let url = match arguments.get("url") {
            Some(value) => match value.as_str() {
                Some(url) => url.to_owned(),
                None => { return Err(refuse("url is required")); },
            },
            None => { return Err(refuse("url is required")); },
        };
        let max_length = read_count(arguments, "maxLength", DEFAULT_PAGE_BYTES);
        Ok(ToolCall::FetchContent { url, max_length })
    } else if text_is(name, "reload_page") {
        Ok(ToolCall::ReloadPage)
    } else if text_is(name, "get_settings") {
        Ok(ToolCall::GetSettings)
    } else if text_is(name, "set_settings") {
        let value = arguments.get_or_empty("settings");
        match JobSettings::from_json(&value) {
            Some(settings) => Ok(ToolCall::SetSettings { settings }),
            None => Err(refuse("settings parse: not the shape of settings")),
        }
    } else if text_is(name, "save_job_match") {
        match JobMatchInput::from_json(arguments) {
            Some(input) => Ok(
                ToolCall::SaveJobMatch { record: JobMatch::from_input(input, id, created_at) },
            ),
            None => Err(refuse("job match parse: not the shape of a job match")),
        }
    } else if text_is(name, "list_job_matches") {
        Ok(ToolCall::ListJobMatches { limit: read_count(arguments, "limit", DEFAULT_LIST_LIMIT) })
    } else if text_is(name, "clear_job_matches") {
        Ok(ToolCall::ClearJobMatches)
    } else {
        Err(ToolError::UnknownTool { name: name.to_owned() })
    }
}

/// Reads a call as `read_call` does, with a fresh identity and the current
/// time for a new record. Whatever these two are, they have the length of
/// their forms, and the call or the error is the one that the name and the
/// arguments make.
pub fn parse_call(name: &str, arguments: &Json) -> (r: Result<ToolCall, ToolError>)
    ensures
        exists|id: Seq<char>, created_at: Seq<char>|
            id.len() == IDENTITY_CHARS && created_at.len() >= TIMESTAMP_CHARS
                && call_result_view(r) == call_of(name@, arguments@, id, created_at),
{
    if text_is(name, "save_job_match") {
        let id = fresh_identity();
        let created_at = current_timestamp();
        let ghost stamp = (id@, created_at@);
        let r = read_call(name, arguments, id, created_at);
        assert(stamp.0.len() == IDENTITY_CHARS && stamp.1.len() >= TIMESTAMP_CHARS
            && call_result_view(r) == call_of(name@, arguments@, stamp.0, stamp.1));
        r
    } else {
        // No other tool makes a record, so any identity and time will do.
        let ghost stamp = (
            Seq::new(IDENTITY_CHARS as nat, |i: int| '0'),
            Seq::new(TIMESTAMP_CHARS as nat, |i: int| '0'),
        );
        let r = read_call(name, arguments, String::new(), String::new());
        assert(stamp.0.len() == IDENTITY_CHARS && stamp.1.len() >= TIMESTAMP_CHARS
            && call_result_view(r) == call_of(name@, arguments@, stamp.0, stamp.1));
        r
    }
}

/// The result of a call that has nothing to tell but that it went well.
pub open spec fn ok_json() -> JsonValue {
    JsonValue::Object(seq![("ok"@, JsonValue::Bool(true))])
}

/// The object with the one member `key: value`.
pub open spec fn single(key: Seq<char>, value: JsonValue) -> JsonValue {
    JsonValue::Object(seq![(key, value)])
}

/// The title of a page: the text of its first `title` element, or the empty
/// text where it has none.
pub open spec fn page_title(titles: Seq<Seq<char>>) -> Seq<char> {
    if titles.len() > 0 {
        titles[0]
    } else {
        Seq::empty()
    }
}

/// The text of a page as it is handed out: trimmed, and of that the first
/// 2000 characters.
pub open spec fn page_text(collapsed: Seq<char>) -> Seq<char> {
    first_chars(trimmed(collapsed), TEXT_CHARS as nat)
}

/// What `fetch_content` hands out for a page.
pub open spec fn page_json(
    url: Seq<char>,
    status: u16,
    html: Seq<char>,
    title: Seq<char>,
    text: Seq<char>,
) -> JsonValue {
    JsonValue::Object(
        seq![
            ("status"@, JsonValue::Number(decimal(status as nat))),
            ("url"@, JsonValue::Text(url)),
            ("title"@, JsonValue::Text(title)),
            ("html"@, JsonValue::Text(html)),
            ("text"@, JsonValue::Text(text)),
        ],
    )
}

/// The result of `fetch_content` for the markup `html`, given the texts of
/// its `title` elements and its text with the whitespace collapsed; an
/// error where the selector or the pattern was refused.
pub open spec fn page_result_of(
    url: Seq<char>,
    status: u16,
    html: Seq<char>,
    titles: Option<Seq<Seq<char>>>,
    collapsed: Option<Seq<char>>,
) -> Result<JsonValue, ErrorModel> {
    if titles is None {
        Err(failed("title selector refused"@))
    } else if collapsed is None {
        Err(failed("whitespace pattern refused"@))
    } else {
        Ok(page_json(url, status, html, page_title(titles->0), page_text(collapsed->0)))
    }
}

/// The selector of the element that holds the title of a page.
pub open spec fn title_selector() -> Seq<char> {
    "title"@
}

/// The pattern of a run of whitespace.
pub open spec fn whitespace_pattern() -> Seq<char> {
    "\\s+"@
}

/// The result of `fetch_content` for a body that was fetched: the body is
/// cut at `max_length` bytes before it is parsed; the text is that of the
/// text nodes, joined by spaces, each run of whitespace collapsed to one
/// space.
pub open spec fn fetched_page(url: Seq<char>, max_length: usize, status: u16, body: Seq<char>)
    -> Result<JsonValue, ErrorModel> {
    let html = truncated(body, max_length as nat);
    page_result_of(
        url,
        status,
        html,
        selected_texts(html, title_selector()),
        replaced_all(whitespace_pattern(), joined(document_texts(html), " "@), " "@),
    )
}

/// The first `limit` of `matches`, or all of them where they are fewer.
pub open spec fn listed(matches: Seq<MatchModel>, limit: usize) -> Seq<MatchModel> {
    if matches.len() <= limit {
        matches
    } else {
        matches.subrange(0, limit as int)
    }
}

/// The JSON forms of a sequence of matches.
pub open spec fn matches_json(matches: Seq<MatchModel>) -> JsonValue {
    JsonValue::Array(Seq::new(matches.len(), |i: int| match_json(matches[i])))
}

/// The message of an outcome that does not belong to the call.
pub open spec fn unexpected_outcome() -> Seq<char> {
    "unexpected outcome"@
}

/// The reply without an event.
pub open spec fn plain_reply(result: Result<JsonValue, ErrorModel>) -> ReplyModel {
    ReplyModel { result, notification: None }
}

/// The reply to a call, given what the work behind it brought.
pub open spec fn reply_of(call: CallModel, outcome: OutcomeModel) -> ReplyModel {
    match call {
        CallModel::SetQueryParams { payload } => ReplyModel {
            result: Ok(ok_json()),
            notification: Some(NotificationModel { event: "mcp:set-query-params"@, payload }),
        },
        CallModel::ReloadPage => ReplyModel {
            result: Ok(ok_json()),
            notification: Some(
                NotificationModel { event: "mcp:reload"@, payload: empty_object() },
            ),
        },
        CallModel::FetchContent { url, max_length } => match outcome {
            OutcomeModel::Page { status, body } => plain_reply(
                fetched_page(url, max_length, status, body),
            ),
            OutcomeModel::Failed(message) => plain_reply(Err(failed(message))),
            _ => plain_reply(Err(failed(unexpected_outcome()))),
        },
        CallModel::GetSettings => match outcome {
            OutcomeModel::Settings(None) => plain_reply(
                Ok(single("settings"@, settings_json(default_settings()))),
            ),
            OutcomeModel::Settings(Some(stored)) => match settings_of_json(stored) {
                Some(settings) => plain_reply(Ok(single("settings"@, settings_json(settings)))),
                None => plain_reply(Err(failed("settings parse: not the shape of settings"@))),
            },
            OutcomeModel::Failed(message) => plain_reply(Err(failed(message))),
            _ => plain_reply(Err(failed(unexpected_outcome()))),
        },
        CallModel::SetSettings { settings } => match outcome {
            OutcomeModel::Done => plain_reply(Ok(single("settings"@, settings_json(settings)))),
            OutcomeModel::Failed(message) => plain_reply(Err(failed(message))),
            _ => plain_reply(Err(failed(unexpected_outcome()))),
        },
        CallModel::SaveJobMatch { record } => match outcome {
            OutcomeModel::Done => ReplyModel {
                result: Ok(single("match"@, match_json(record))),
                notification: Some(
                    NotificationModel {
                        event: "analysis:completed"@,
                        payload: single("match"@, match_json(record)),
                    },
                ),
            },
            OutcomeModel::Failed(message) => plain_reply(Err(failed(message))),
            _ => plain_reply(Err(failed(unexpected_outcome()))),
        },
        CallModel::ListJobMatches { limit } => match outcome {
            OutcomeModel::Matches(matches) => plain_reply(
                Ok(single("matches"@, matches_json(listed(matches, limit)))),
            ),
            OutcomeModel::Failed(message) => plain_reply(Err(failed(message))),
            _ => plain_reply(Err(failed(unexpected_outcome()))),
        },
        CallModel::ClearJobMatches => match outcome {
            OutcomeModel::Done => plain_reply(Ok(ok_json())),
            OutcomeModel::Failed(message) => plain_reply(Err(failed(message))),
            _ => plain_reply(Err(failed(unexpected_outcome()))),
        },
    }
}

/// The object with the one member `key: value`.
fn single_member(key: &str, value: Json) -> (r: Json)
    ensures
        r@ == single(key@, value@),
{
    let mut entries: Vec<(String, Json)> = Vec::new();
    assert(entries_view(entries@) =~= Seq::empty());
    push_member(&mut entries, key, value);
    let r = Json::object(entries);
    assert(r@->Object_0 =~= single(key@, value@)->Object_0);
    r
}

/// The result of a call that has nothing to tell but that it went well.
fn ok_result() -> (r: Json)
    ensures
        r@ == ok_json(),
{
    single_member("ok", Json::Bool(true))
}

/// The error of work that failed.
fn fail(message: String) -> (r: ToolError)
    ensures
        r@ == failed(message@),
{
    ToolError::Execution { message }
}

/// The error of an outcome that does not belong to the call.
fn unexpected() -> (r: ToolError)
    ensures
        r@ == failed(unexpected_outcome()),
{
    ToolError::Execution { message: "unexpected outcome".to_owned() }
}

/// The reply without an event.
fn reply_plainly(result: Result<Json, ToolError>) -> (r: ToolReply)
    ensures
        r@ == plain_reply(result_view(result)),
{
    ToolReply { result, notification: None }
}

/// The reply to an outcome that carries no result of its own: the result
/// `result` where the work is done, the message where it failed.
fn reply_when_done(outcome: ToolOutcome, result: Json) -> (r: ToolReply)
    ensures
        r@ == (match outcome@ {
            OutcomeModel::Done => plain_reply(Ok(result@)),
            OutcomeModel::Failed(message) => plain_reply(Err(failed(message))),
            _ => plain_reply(Err(failed(unexpected_outcome()))),
        }),
{
    match outcome {
        ToolOutcome::Done => reply_plainly(Ok(result)),
        ToolOutcome::Failed(message) => reply_plainly(Err(fail(message))),
        _ => reply_plainly(Err(unexpected())),
    }
}

/// The result of `fetch_content` for the markup `html`, which has been cut
/// already, given the texts of its `title` elements and its text with the
/// whitespace collapsed.
pub fn page_result(
    url: &str,
    status: u16,
    html: &str,
    titles: &Option<Vec<String>>,
    collapsed: &Option<String>,
) -> (r: Result<Json, ToolError>)
    ensures
        result_view(r) == page_result_of(
            url@,
            status,
            html@,
            option_texts_view(*titles),
            option_view(*collapsed),
        ),
{
    let title: String = match titles {
        Some(texts) => {
            if texts.len() > 0 {
                texts[0].clone()
            } else {
                String::new()
            }
        },
        None => { return Err(fail("title selector refused".to_owned())); },
    };
    let text: String = match collapsed {
        Some(whole) => {
            let kept = trim(whole.as_str());
            take_chars(kept.as_str(), TEXT_CHARS)
        },
        None => { return Err(fail("whitespace pattern refused".to_owned())); },
    };
    let mut entries: Vec<(String, Json)> = Vec::new();
    assert(entries_view(entries@) =~= Seq::empty());
    push_member(&mut entries, "status", Json::unsigned(status as u64));
    push_member(&mut entries, "url", Json::text(url));
    push_member(&mut entries, "title", Json::Text(title));
    push_member(&mut entries, "html", Json::text(html));
    push_member(&mut entries, "text", Json::Text(text));
    let page = Json::object(entries);
    assert(page@->Object_0 =~= page_json(url@, status, html@, title@, text@)->Object_0);
    Ok(page)
}

/// The result of `fetch_content` for a body that was fetched.
pub fn fetch_result(url: &str, max_length: usize, status: u16, body: &str) -> (r: Result<
    Json,
    ToolError,
>)
    ensures
        result_view(r) == fetched_page(url@, max_length, status, body@),
{
    let html = truncate(body, max_length);
    let titles = select_texts(html.as_str(), "title");
    let pieces = root_texts(html.as_str());
    let raw = join(&pieces, " ");
    let collapsed = replace_all("\\s+", raw.as_str(), " ");
    page_result(url, status, html.as_str(), &titles, &collapsed)
}

/// The JSON form of the first `limit` of `matches`.
fn list_result(matches: &Vec<JobMatch>, limit: usize) -> (r: Json)
    ensures
        r@ == matches_json(listed(matches_view(matches@), limit)),
{
    let count: usize = if matches.len() <= limit {
        matches.len()
    } else {
        limit
    };
    let ghost shown = listed(matches_view(matches@), limit);
    let mut items: Vec<Json> = Vec::new();
    let mut i: usize = 0;
    while i < count
        invariant
            i <= count <= matches@.len(),
            shown.len() == count,
            forall|k: int| 0 <= k < count ==> shown[k] == (#[trigger] matches@[k])@,
            items@.len() == i,
            forall|k: int| 0 <= k < i ==> (#[trigger] items@[k])@ == match_json(shown[k]),
        decreases count - i,
    {
        items.push(matches[i].to_json());
        i += 1;
    }
    proof {
        lemma_array_view(items);
        assert(items_view(items@) =~= matches_json(shown)->Array_0);
    }
    Json::Array(items)
}

/// The reply to a call, given what the work behind it brought.
pub fn reply(call: ToolCall, outcome: ToolOutcome) -> (r: ToolReply)
    ensures
        r@ == reply_of(call@, outcome@),
{
    match call {
        ToolCall::SetQueryParams { payload } => ToolReply {
            result: Ok(ok_result()),
            notification: Some(Notification { event: "mcp:set-query-params".to_owned(), payload }),
        },
        ToolCall::ReloadPage => ToolReply {
            result: Ok(ok_result()),
            notification: Some(
                Notification { event: "mcp:reload".to_owned(), payload: Json::empty() },
            ),
        },
        ToolCall::FetchContent { url, max_length } => match outcome {
            ToolOutcome::Page { status, body } => reply_plainly(
                fetch_result(url.as_str(), max_length, status, body.as_str()),
            ),
            ToolOutcome::Failed(message) => reply_plainly(Err(fail(message))),
            _ => reply_plainly(Err(unexpected())),
        },
        ToolCall::GetSettings => match outcome {
            ToolOutcome::Settings(None) => reply_plainly(
                Ok(single_member("settings", JobSettings::default().to_json())),
            ),
            ToolOutcome::Settings(Some(stored)) => match JobSettings::from_json(&stored) {
                Some(settings) => reply_plainly(
                    Ok(single_member("settings", settings.to_json())),
                ),
                None => reply_plainly(
                    Err(fail("settings parse: not the shape of settings".to_owned())),
                ),
            },
            ToolOutcome::Failed(message) => reply_plainly(Err(fail(message))),
            _ => reply_plainly(Err(unexpected())),
        },
        ToolCall::SetSettings { settings } => reply_when_done(
            outcome,
            single_member("settings", settings.to_json()),
        ),
        ToolCall::SaveJobMatch { record } => match outcome {
            ToolOutcome::Done => ToolReply {
                result: Ok(single_member("match", record.to_json())),
                notification: Some(
                    Notification {
                        event: "analysis:completed".to_owned(),
                        payload: single_member("match", record.to_json()),
                    },
                ),
            },
            ToolOutcome::Failed(message) => reply_plainly(Err(fail(message))),
            _ => reply_plainly(Err(unexpected())),
        },
        ToolCall::ListJobMatches { limit } => match outcome {
            ToolOutcome::Matches(matches) => reply_plainly(
                Ok(single_member("matches", list_result(&matches, limit))),
            ),
            ToolOutcome::Failed(message) => reply_plainly(Err(fail(message))),
            _ => reply_plainly(Err(unexpected())),
        },
        ToolCall::ClearJobMatches => reply_when_done(outcome, ok_result()),
    }
}

/// What `fetch_content` hands out for a fetched body holds markup of at
/// most `max_length` bytes, and so of at most as many characters, and text
/// of at most 2000 characters; where the page has no `title` element its
/// title is the empty text.
pub proof fn lemma_page_within_limits(
    url: Seq<char>,
    max_length: usize,
    status: u16,
    body: Seq<char>,
)
    requires
        fetched_page(url, max_length, status, body) is Ok,
    ensures
        ({
            let page = fetched_page(url, max_length, status, body)->Ok_0;
            let html = truncated(body, max_length as nat);
            &&& page.member("html"@) == Some(JsonValue::Text(html))
            &&& html.len() <= max_length
            &&& utf8_len(html) <= max_length
            &&& page.member("text"@) is Some
            &&& page.member("text"@)->0 is Text
            &&& page.member("text"@)->0->Text_0.len() <= TEXT_CHARS
            &&& page.member("title"@) is Some
            &&& page.member("title"@)->0 is Text
            &&& selected_texts(html, title_selector()) == Some(Seq::<Seq<char>>::empty())
                ==> page.member("title"@) == Some(JsonValue::Text(Seq::empty()))
        }),
{
    let html = truncated(body, max_length as nat);
    let titles = selected_texts(html, title_selector());
    let collapsed = replaced_all(whitespace_pattern(), joined(document_texts(html), " "@), " "@);
    let title = page_title(titles->0);
    let text = page_text(collapsed->0);
    let page = page_json(url, status, html, title, text);
    let entries = page->Object_0;
    lemma_truncated_fits(body, max_length as nat);
    reveal_strlit("status");
    reveal_strlit("url");
    reveal_strlit("title");
    reveal_strlit("html");
    reveal_strlit("text");
    assert(entries[0].0.len() == 6);
    assert(entries[1].0.len() == 3);
    assert(entries[2].0.len() == 5);
    assert(entries[3].0.len() == 4);
    assert(entries[4].0.len() == 4);
    assert("html"@[0] != "text"@[0]);
    lemma_member_at(entries, 2);
    lemma_member_at(entries, 3);
    lemma_member_at(entries, 4);
}

/// The tools of the table bear the names of `tool_names`, in its order, so
/// that each of them is a tool.
pub proof fn lemma_table_names()
    ensures
        tool_table().len() == tool_names().len(),
        forall|i: int|
            0 <= i < tool_table().len() ==> (#[trigger] tool_table()[i]).name == tool_names()[i]
                && is_tool(tool_table()[i].name),
{
    let table = tool_table();
    let names = tool_names();
    assert forall|i: int| 0 <= i < table.len() implies (#[trigger] table[i]).name == names[i]
        && is_tool(table[i].name) by {
        assert(names.contains(names[i]));
    }
}

/// A name that no tool bears differs from each name of the table.
proof fn lemma_not_a_tool(name: Seq<char>)
    requires
        !is_tool(name),
    ensures
        name != "set_query_params"@,
        name != "fetch_content"@,
        name != "reload_page"@,
        name != "get_settings"@,
        name != "set_settings"@,
        name != "save_job_match"@,
        name != "list_job_matches"@,
        name != "clear_job_matches"@,
{
    let names = tool_names();
    assert(names[0] == "set_query_params"@);
    assert(names[1] == "fetch_content"@);
    assert(names[2] == "reload_page"@);
    assert(names[3] == "get_settings"@);
    assert(names[4] == "set_settings"@);
    assert(names[5] == "save_job_match"@);
    assert(names[6] == "list_job_matches"@);
    assert(names[7] == "clear_job_matches"@);
}

/// A call is refused as the call of an unknown tool exactly when its name
/// is no tool's, whatever its arguments; the error then bears the name.
pub proof fn lemma_unknown_tool(
    name: Seq<char>,
    arguments: JsonValue,
    id: Seq<char>,
    created_at: Seq<char>,
)
    ensures
        !is_tool(name) <==> call_of(name, arguments, id, created_at) == Err::<
            CallModel,
            ErrorModel,
        >(ErrorModel::UnknownTool { name }),
{
    if is_tool(name) {
        let names = tool_names();
        let i = choose|i: int| 0 <= i < names.len() && names[i] == name;
        assert(0 <= i < 8 && names[i] == name);
    } else {
        lemma_not_a_tool(name);
    }
}

} // verus!
