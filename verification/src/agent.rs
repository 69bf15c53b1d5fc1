//! The worker's side: one analysis, run as a fixed row of requests to the
//! host.

use crate::codec::outcome_view;
use crate::envelope::{
    decode_response, decoded_response, encode_request, is_one_line, line_of, request_json,
};
use crate::extraction::{extract_listing, extraction_of};
use crate::json::{
    empty_object, entries_view, option_view, optional_text, push_member, Json, JsonValue,
};
use crate::records::{clone_optional, match_input_json, JobMatchInput, MatchInputModel};
use crate::scoring::{match_listing, match_of, score_literal, score_text};
use crate::settings::{default_settings, settings_of_json, JobSettings, SettingsModel};
use crate::text::{all_digits, chars_of, decimal, digits_value, is_digit, parse_u64};
use vstd::prelude::*;
use vstd::string::StringExecFns;

verus! {

/// The environment variable that carries the port of the server.
pub const PORT_VARIABLE: &'static str = "JOB_HUNTER_MCP_PORT";

/// The environment variable that carries the address of the page.
pub const URL_VARIABLE: &'static str = "JOB_HUNTER_TARGET_URL";

/// The environment variable that carries the identity of the analysis.
pub const ANALYSIS_VARIABLE: &'static str = "JOB_HUNTER_ANALYSIS_ID";

/// The argument that starts the program as a worker.
pub const WORKER_FLAG: &'static str = "--analysis-agent";

/// The seconds that the worker waits for a response.
pub const READ_TIMEOUT_SECONDS: u64 = 20;

/// The seconds that the worker waits for a request to go out.
pub const WRITE_TIMEOUT_SECONDS: u64 = 10;

/// The number of bytes of the page that the worker asks for.
pub const WORKER_PAGE_BYTES: u64 = 120_000;

/// What a worker is started with: the port of the server, the address of
/// the page, and the identity of the analysis where it has one.
#[derive(Debug)]
pub struct WorkerConfig {
    pub port: u16,
    pub url: String,
    pub analysis_id: Option<String>,
}

/// The mathematical model of `WorkerConfig`.
pub struct ConfigModel {
    pub port: u16,
    pub url: Seq<char>,
    pub analysis_id: Option<Seq<char>>,
}

impl View for WorkerConfig {
    type V = ConfigModel;

    open spec fn view(&self) -> ConfigModel {
        ConfigModel { port: self.port, url: self.url@, analysis_id: option_view(self.analysis_id) }
    }
}

/// The digits of a port: the text without a leading plus sign.
pub open spec fn port_digits(text: Seq<char>) -> Seq<char> {
    if text.len() > 0 && text[0] == '+' {
        text.subrange(1, text.len() as int)
    } else {
        text
    }
}

/// The port that a text writes: decimal digits, with or without a plus sign
/// before them, worth at most 65535; else what is wrong with the text.
pub open spec fn port_of(text: Seq<char>) -> Result<u16, Seq<char>> {
    if text.len() == 0 {
        Err("cannot parse integer from empty string"@)
    } else if port_digits(text).len() == 0 || !all_digits(port_digits(text)) {
        Err("invalid digit found in string"@)
    } else if digits_value(port_digits(text)) > u16::MAX {
        Err("number too large to fit in target type"@)
    } else {
        Ok(digits_value(port_digits(text)) as u16)
    }
}

/// The configuration that the three variables give, or the message of what
/// is missing or wrong.
pub open spec fn config_of(
    port: Option<Seq<char>>,
    url: Option<Seq<char>>,
    analysis_id: Option<Seq<char>>,
) -> Result<ConfigModel, Seq<char>> {
    match port {
        None => Err("missing JOB_HUNTER_MCP_PORT"@),
        Some(port) => match port_of(port) {
            Err(reason) => Err("invalid port: "@ + reason),
            Ok(port) => match url {
                None => Err("missing JOB_HUNTER_TARGET_URL"@),
                Some(url) => Ok(ConfigModel { port, url, analysis_id }),
            },
        },
    }
}

/// The model of a port or of what is wrong with its text.
pub open spec fn port_view(r: Result<u16, String>) -> Result<u16, Seq<char>> {
    match r {
        Ok(port) => Ok(port),
        Err(reason) => Err(reason@),
    }
}

/// The model of a configuration or of the message in its place.
pub open spec fn config_view(r: Result<WorkerConfig, String>) -> Result<ConfigModel, Seq<char>> {
    match r {
        Ok(config) => Ok(config@),
        Err(message) => Err(message@),
    }
}

/// Whether every one of `chars[from..]` is a decimal digit.
fn digits_only(chars: &Vec<char>, from: usize) -> (r: bool)
    requires
        from <= chars@.len(),
    ensures
        r == all_digits(chars@.subrange(from as int, chars@.len() as int)),
{
    let ghost rest = chars@.subrange(from as int, chars@.len() as int);
    let mut i: usize = from;
    while i < chars.len()
        invariant
            from <= i <= chars@.len(),
            rest == chars@.subrange(from as int, chars@.len() as int),
            forall|k: int| 0 <= k < i - from ==> is_digit(#[trigger] rest[k]),
        decreases chars@.len() - i,
    {
        let c = chars[i];
        if c < '0' || c > '9' {
            assert(!is_digit(rest[i - from]));
            return false;
        }
        i += 1;
    }
    true
}

/// Reads a port.
pub fn parse_port(text: &str) -> (r: Result<u16, String>)
    ensures
        port_view(r) == port_of(text@),
{
    let chars = chars_of(text);
    let total: usize = chars.len();
    if total == 0 {
        return Err("cannot parse integer from empty string".to_owned());
    }
    let from: usize = if chars[0] == '+' {
        1
    } else {
        0
    };
    assert(chars@.subrange(from as int, total as int) =~= port_digits(text@));
    if from == total || !digits_only(&chars, from) {
        return Err("invalid digit found in string".to_owned());
    }
    match parse_u64(&chars, from, total) {
        Some(value) => {
            if value > 65535 {
                Err("number too large to fit in target type".to_owned())
            } else {
                Ok(value as u16)
            }
        },
        None => Err("number too large to fit in target type".to_owned()),
    }
}

/// Puts the configuration of a worker together from the values of the
/// three variables, each `None` where the variable is not set.
pub fn read_config(port: Option<String>, url: Option<String>, analysis_id: Option<String>) -> (r:
    Result<WorkerConfig, String>)
    ensures
        config_view(r) == config_of(option_view(port), option_view(url), option_view(analysis_id)),
{
    let port = match port {
        Some(text) => match parse_port(text.as_str()) {
            Ok(port) => port,
            Err(reason) => {
                let mut message = "invalid port: ".to_owned();
                message.append(reason.as_str());
                return Err(message);
            },
        },
        None => { return Err("missing JOB_HUNTER_MCP_PORT".to_owned()); },
    };
    match url {
        Some(url) => Ok(WorkerConfig { port, url, analysis_id }),
        None => Err("missing JOB_HUNTER_TARGET_URL".to_owned()),
    }
}

/// The parameters of `call_tool` for the tool `name`.
pub open spec fn call_params(name: Seq<char>, arguments: JsonValue) -> JsonValue {
    JsonValue::Object(seq![("name"@, JsonValue::Text(name)), ("arguments"@, arguments)])
}

/// The line that calls the tool `name` under the identifier `id`.
pub open spec fn call_line(id: u64, name: Seq<char>, arguments: JsonValue) -> Seq<char> {
    line_of(request_json(id, "call_tool"@, call_params(name, arguments)))
}

/// The arguments with which the worker asks for the page.
pub open spec fn fetch_arguments(url: Seq<char>) -> JsonValue {
    JsonValue::Object(
        seq![
            ("url"@, JsonValue::Text(url)),
            ("maxLength"@, JsonValue::Number(decimal(WORKER_PAGE_BYTES as nat))),
        ],
    )
}

/// The arguments with which the worker points the user interface at the
/// analysis.
pub open spec fn query_arguments(url: Seq<char>, analysis_id: Option<Seq<char>>) -> JsonValue {
    JsonValue::Object(
        seq![("url"@, JsonValue::Text(url)), ("analysisId"@, optional_text(analysis_id))],
    )
}

/// The settings that the answer to `get_settings` gives: those under its
/// `settings` member, or the built-in ones where the call failed, the
/// member is missing or it has not the shape of settings.
pub open spec fn settings_from(answer: Result<JsonValue, Seq<char>>) -> SettingsModel {
    match answer {
        Ok(result) => match result.member("settings"@) {
            Some(stored) => match settings_of_json(stored) {
                Some(settings) => settings,
                None => default_settings(),
            },
            None => default_settings(),
        },
        Err(_) => default_settings(),
    }
}

/// The string member `key` of a result, or the empty text where it is
/// missing or no string.
pub open spec fn text_or_empty(result: JsonValue, key: Seq<char>) -> Seq<char> {
    match result.member(key) {
        Some(JsonValue::Text(text)) => text,
        _ => Seq::empty(),
    }
}

/// What the worker hands in to have the match recorded: the fields drawn
/// from the page and the score of the listing against the settings.
pub open spec fn analysis_of(
    url: Seq<char>,
    analysis_id: Option<Seq<char>>,
    page: JsonValue,
    settings: SettingsModel,
) -> MatchInputModel {
    let listing = extraction_of(
        text_or_empty(page, "html"@),
        text_or_empty(page, "text"@),
        text_or_empty(page, "title"@),
    );
    let scored = match_of(listing, settings);
    MatchInputModel {
        analysis_id,
        url,
        title: listing.title,
        company: listing.company,
        location: listing.location,
        match_score: score_literal(scored.numerator, scored.denominator),
        summary: scored.summary,
        raw_excerpt: listing.raw_excerpt,
    }
}

/// How far a worker has come: which answer it waits for.
#[derive(Debug)]
pub enum WorkerStage {
    Initializing,
    LoadingSettings,
    FetchingContent { settings: JobSettings },
    Saving,
    UpdatingQuery,
    Reloading,
    Finished,
}

/// The mathematical model of `WorkerStage`.
pub enum StageModel {
    Initializing,
    LoadingSettings,
    FetchingContent { settings: SettingsModel },
    Saving,
    UpdatingQuery,
    Reloading,
    Finished,
}

impl View for WorkerStage {
    type V = StageModel;

    open spec fn view(&self) -> StageModel {
        match self {
            WorkerStage::Initializing => StageModel::Initializing,
            WorkerStage::LoadingSettings => StageModel::LoadingSettings,
            WorkerStage::FetchingContent { settings } => StageModel::FetchingContent {
                settings: settings@,
            },
            WorkerStage::Saving => StageModel::Saving,
            WorkerStage::UpdatingQuery => StageModel::UpdatingQuery,
            WorkerStage::Reloading => StageModel::Reloading,
            WorkerStage::Finished => StageModel::Finished,
        }
    }
}

/// A worker: the page and the analysis it works on, the identifier of its
/// next request, and how far it has come.
#[derive(Debug)]
pub struct Worker {
    pub url: String,
    pub analysis_id: Option<String>,
    pub next_id: u64,
    pub stage: WorkerStage,
}

/// The mathematical model of `Worker`.
pub struct WorkerModel {
    pub url: Seq<char>,
    pub analysis_id: Option<Seq<char>>,
    pub next_id: u64,
    pub stage: StageModel,
}

impl View for Worker {
    type V = WorkerModel;

    open spec fn view(&self) -> WorkerModel {
        WorkerModel {
            url: self.url@,
            analysis_id: option_view(self.analysis_id),
            next_id: self.next_id,
            stage: self.stage@,
        }
    }
}

impl WorkerModel {
    /// The identifier of the next request is one more than the number of
    /// requests that the stage has behind it.
    pub open spec fn well_formed(self) -> bool {
        match self.stage {
            StageModel::Initializing => self.next_id == 2,
            StageModel::LoadingSettings => self.next_id == 3,
            StageModel::FetchingContent { .. } => self.next_id == 4,
            StageModel::Saving => self.next_id == 5,
            StageModel::UpdatingQuery => self.next_id == 6,
            StageModel::Reloading => self.next_id == 7,
            StageModel::Finished => 1 <= self.next_id <= 7,
        }
    }

    /// This worker at the stage `stage`, one request further on.
    pub open spec fn moved_to(self, stage: StageModel) -> WorkerModel {
        WorkerModel { next_id: (self.next_id + 1) as u64, stage, ..self }
    }

    /// This worker at its end.
    pub open spec fn finished(self) -> WorkerModel {
        WorkerModel { stage: StageModel::Finished, ..self }
    }
}

/// What happened to a worker: a response line came in, or writing,
/// flushing or reading failed.
#[derive(Debug)]
pub enum WorkerEvent {
    Response(String),
    WriteFailed(String),
    FlushFailed(String),
    ReadFailed(String),
}

/// The mathematical model of `WorkerEvent`.
pub enum WorkerEventModel {
    Response(Seq<char>),
    WriteFailed(Seq<char>),
    FlushFailed(Seq<char>),
    ReadFailed(Seq<char>),
}

impl View for WorkerEvent {
    type V = WorkerEventModel;

    open spec fn view(&self) -> WorkerEventModel {
        match self {
            WorkerEvent::Response(line) => WorkerEventModel::Response(line@),
            WorkerEvent::WriteFailed(detail) => WorkerEventModel::WriteFailed(detail@),
            WorkerEvent::FlushFailed(detail) => WorkerEventModel::FlushFailed(detail@),
            WorkerEvent::ReadFailed(detail) => WorkerEventModel::ReadFailed(detail@),
        }
    }
}

/// What the driver of a worker is to do next: send a line and read the
/// answer, or end the run.
#[derive(Debug)]
pub enum WorkerAction {
    Send(String),
    Finish(Result<(), String>),
}

/// The mathematical model of `WorkerAction`.
pub enum WorkerActionModel {
    Send(Seq<char>),
    Finish(Result<(), Seq<char>>),
}

impl View for WorkerAction {
    type V = WorkerActionModel;

    open spec fn view(&self) -> WorkerActionModel {
        match self {
            WorkerAction::Send(line) => WorkerActionModel::Send(line@),
            WorkerAction::Finish(Ok(())) => WorkerActionModel::Finish(Ok(())),
            WorkerAction::Finish(Err(message)) => WorkerActionModel::Finish(Err(message@)),
        }
    }
}

/// What the action sends, if anything, is one line.
pub open spec fn sends_one_line(action: WorkerAction) -> bool {
    match action {
        WorkerAction::Send(line) => is_one_line(line@),
        WorkerAction::Finish(_) => true,
    }
}

/// The worker as it starts, and its first request: `initialize`, under the
/// identifier 1.
pub open spec fn first_step(config: ConfigModel) -> (WorkerModel, WorkerActionModel) {
    (
        WorkerModel {
            url: config.url,
            analysis_id: config.analysis_id,
            next_id: 2,
            stage: StageModel::Initializing,
        },
        WorkerActionModel::Send(line_of(request_json(1, "initialize"@, empty_object()))),
    )
}

/// The step that ends a run with an error.
pub open spec fn abort(worker: WorkerModel, message: Seq<char>) -> (
    WorkerModel,
    WorkerActionModel,
) {
    (worker.finished(), WorkerActionModel::Finish(Err(message)))
}

/// The step that calls the tool `name` and moves on to `stage`.
pub open spec fn call_step(
    worker: WorkerModel,
    stage: StageModel,
    name: Seq<char>,
    arguments: JsonValue,
) -> (WorkerModel, WorkerActionModel) {
    (worker.moved_to(stage), WorkerActionModel::Send(call_line(worker.next_id, name, arguments)))
}

/// The step that the answer to the request of the current stage leads to.
/// A failed `initialize` or `fetch_content` ends the run with the error; a
/// failed `get_settings` falls back on the built-in settings; what the last
/// three calls answer is passed over.
pub open spec fn answer_step(worker: WorkerModel, answer: Result<JsonValue, Seq<char>>) -> (
    WorkerModel,
    WorkerActionModel,
) {
    match worker.stage {
        StageModel::Initializing => match answer {
            Ok(_) => call_step(
                worker,
                StageModel::LoadingSettings,
                "get_settings"@,
                empty_object(),
            ),
            Err(message) => abort(worker, message),
        },
        StageModel::LoadingSettings => call_step(
            worker,
            StageModel::FetchingContent { settings: settings_from(answer) },
            "fetch_content"@,
            fetch_arguments(worker.url),
        ),
        StageModel::FetchingContent { settings } => match answer {
            Ok(page) => call_step(
                worker,
                StageModel::Saving,
                "save_job_match"@,
                match_input_json(analysis_of(worker.url, worker.analysis_id, page, settings)),
            ),
            Err(message) => abort(worker, message),
        },
        StageModel::Saving => call_step(
            worker,
            StageModel::UpdatingQuery,
            "set_query_params"@,
            query_arguments(worker.url, worker.analysis_id),
        ),
        StageModel::UpdatingQuery => call_step(
            worker,
            StageModel::Reloading,
            "reload_page"@,
            empty_object(),
        ),
        StageModel::Reloading => (worker.finished(), WorkerActionModel::Finish(Ok(()))),
        StageModel::Finished => abort(worker, "unexpected event"@),
    }
}

/// The next state of a worker and what its driver is to do. A failure of
/// the transport ends the run at any stage.
pub open spec fn worker_step(worker: WorkerModel, event: WorkerEventModel) -> (
    WorkerModel,
    WorkerActionModel,
) {
    if worker.stage is Finished {
        abort(worker, "unexpected event"@)
    } else {
        match event {
            WorkerEventModel::Response(line) => answer_step(worker, decoded_response(line)),
            WorkerEventModel::WriteFailed(detail) => abort(worker, "mcp write: "@ + detail),
            WorkerEventModel::FlushFailed(detail) => abort(worker, "mcp flush: "@ + detail),
            WorkerEventModel::ReadFailed(detail) => abort(worker, "mcp read: "@ + detail),
        }
    }
}

/// The parameters of `call_tool` for the tool `name`.
fn tool_call(name: &str, arguments: Json) -> (r: Json)
    ensures
        r@ == call_params(name@, arguments@),
{
    let mut entries: Vec<(String, Json)> = Vec::new();
    assert(entries_view(entries@) =~= Seq::empty());
    push_member(&mut entries, "name", Json::text(name));
    push_member(&mut entries, "arguments", arguments);
    let r = Json::object(entries);
    assert(r@->Object_0 =~= call_params(name@, arguments@)->Object_0);
    r
}

/// The settings that the answer to `get_settings` gives.
pub fn settings_from_answer(answer: &Result<Json, String>) -> (r: JobSettings)
    ensures
        r@ == settings_from(outcome_view(*answer)),
{
    match answer {
        Ok(result) => match result.get("settings") {
            Some(stored) => match JobSettings::from_json(stored) {
                Some(settings) => settings,
                None => JobSettings::default(),
            },
            None => JobSettings::default(),
        },
        Err(_) => JobSettings::default(),
    }
}

/// The string member `key` of a result, or the empty text.
fn member_text(result: &Json, key: &str) -> (r: String)
    ensures
        r@ == text_or_empty(result@, key@),
{
    match result.get(key) {
        Some(Json::Text(text)) => text.clone(),
        _ => String::new(),
    }
}

/// Draws the fields from the page that `fetch_content` handed out, scores
/// them against the settings, and puts together what is handed in to have
/// the match recorded.
pub fn analyse(url: &str, analysis_id: &Option<String>, page: &Json, settings: &JobSettings) -> (r:
    JobMatchInput)
    ensures
        r@ == analysis_of(url@, option_view(*analysis_id), page@, settings@),
{
    let html = member_text(page, "html");
    let text = member_text(page, "text");
    let title = member_text(page, "title");
    let listing = extract_listing(html.as_str(), text.as_str(), title.as_str());
    let scored = match_listing(&listing, settings);
    JobMatchInput {
        analysis_id: clone_optional(analysis_id),
        url: url.to_owned(),
        title: listing.title,
        company: listing.company,
        location: listing.location,
        match_score: score_text(scored.match_score),
        summary: scored.summary,
        raw_excerpt: listing.raw_excerpt,
    }
}

impl Worker {
    /// Starts a worker: its first request is `initialize`.
    pub fn start(config: WorkerConfig) -> (r: (Worker, WorkerAction))
        ensures
            r.0@ == first_step(config@).0,
            r.1@ == first_step(config@).1,
            r.0@.well_formed(),
            sends_one_line(r.1),
    {
        let line = encode_request(1, "initialize", Json::empty());
        (
            Worker {
                url: config.url,
                analysis_id: config.analysis_id,
                next_id: 2,
                stage: WorkerStage::Initializing,
            },
            WorkerAction::Send(line),
        )
    }

    /// Whether the identifier of the next request fits the stage, as every
    /// worker that `start` made and `on_event` moved on does.
    pub fn is_consistent(&self) -> (r: bool)
        ensures
            r == self@.well_formed(),
    {
        match &self.stage {
            WorkerStage::Initializing => self.next_id == 2,
            WorkerStage::LoadingSettings => self.next_id == 3,
            WorkerStage::FetchingContent { .. } => self.next_id == 4,
            WorkerStage::Saving => self.next_id == 5,
            WorkerStage::UpdatingQuery => self.next_id == 6,
            WorkerStage::Reloading => self.next_id == 7,
            WorkerStage::Finished => 1 <= self.next_id && self.next_id <= 7,
        }
    }

    /// Ends the run with an error.
    fn abort(self, message: String) -> (r: (Worker, WorkerAction))
        requires
            self@.well_formed(),
        ensures
            r.0@ == abort(self@, message@).0,
            r.1@ == abort(self@, message@).1,
            r.0@.well_formed(),
            sends_one_line(r.1),
    {
        (
            Worker {
                url: self.url,
                analysis_id: self.analysis_id,
                next_id: self.next_id,
                stage: WorkerStage::Finished,
            },
            WorkerAction::Finish(Err(message)),
        )
    }

    /// Calls the tool `name` and moves on to `stage`.
    fn call(self, stage: WorkerStage, name: &str, arguments: Json) -> (r: (Worker, WorkerAction))
        requires
            self.next_id < u64::MAX,
        ensures
            r.0@ == call_step(self@, stage@, name@, arguments@).0,
            r.1@ == call_step(self@, stage@, name@, arguments@).1,
            sends_one_line(r.1),
    {
        let line = encode_request(self.next_id, "call_tool", tool_call(name, arguments));
        (
            Worker {
                url: self.url,
                analysis_id: self.analysis_id,
                next_id: self.next_id + 1,
                stage,
            },
            WorkerAction::Send(line),
        )
    }

    /// Takes the answer to the request of the current stage and decides
    /// what comes next.
    pub fn on_answer(self, answer: Result<Json, String>) -> (r: (Worker, WorkerAction))
        requires
            self@.well_formed(),
        ensures
            r.0@ == answer_step(self@, outcome_view(answer)).0,
            r.1@ == answer_step(self@, outcome_view(answer)).1,
            r.0@.well_formed(),
            sends_one_line(r.1),
    {
        let Worker { url, analysis_id, next_id, stage } = self;
        match stage {
            WorkerStage::Initializing => {
                let worker = Worker { url, analysis_id, next_id, stage: WorkerStage::Initializing };
                match answer {
                    Ok(_) => worker.call(WorkerStage::LoadingSettings, "get_settings", Json::empty()),
                    Err(message) => worker.abort(message),
                }
            },
            WorkerStage::LoadingSettings => {
                let settings = settings_from_answer(&answer);
                let mut entries: Vec<(String, Json)> = Vec::new();
                assert(entries_view(entries@) =~= Seq::empty());
                push_member(&mut entries, "url", Json::text(url.as_str()));
                push_member(&mut entries, "maxLength", Json::unsigned(WORKER_PAGE_BYTES));
                let arguments = Json::object(entries);
                assert(arguments@->Object_0 =~= fetch_arguments(url@)->Object_0);
                let worker = Worker {
                    url,
                    analysis_id,
                    next_id,
                    stage: WorkerStage::LoadingSettings,
                };
                worker.call(WorkerStage::FetchingContent { settings }, "fetch_content", arguments)
            },
            WorkerStage::FetchingContent { settings } => {
                match answer {
                    Ok(page) => {
                        let input = analyse(url.as_str(), &analysis_id, &page, &settings);
                        let arguments = input.to_json();
                        let worker = Worker {
                            url,
                            analysis_id,
                            next_id,
                            stage: WorkerStage::FetchingContent { settings },
                        };
                        worker.call(WorkerStage::Saving, "save_job_match", arguments)
                    },
                    Err(message) => {
                        let worker = Worker {
                            url,
                            analysis_id,
                            next_id,
                            stage: WorkerStage::FetchingContent { settings },
                        };
                        worker.abort(message)
                    },
                }
            },
            WorkerStage::Saving => {
                let mut entries: Vec<(String, Json)> = Vec::new();
                assert(entries_view(entries@) =~= Seq::empty());
                push_member(&mut entries, "url", Json::text(url.as_str()));
                push_member(&mut entries, "analysisId", Json::optional(&analysis_id));
                let arguments = Json::object(entries);
                assert(arguments@->Object_0 =~= query_arguments(
                    url@,
                    option_view(analysis_id),
                )->Object_0);
                let worker = Worker { url, analysis_id, next_id, stage: WorkerStage::Saving };
                worker.call(WorkerStage::UpdatingQuery, "set_query_params", arguments)
            },
            WorkerStage::UpdatingQuery => {
                let worker = Worker { url, analysis_id, next_id, stage: WorkerStage::UpdatingQuery };
                worker.call(WorkerStage::Reloading, "reload_page", Json::empty())
            },
            WorkerStage::Reloading => (
                Worker { url, analysis_id, next_id, stage: WorkerStage::Finished },
                WorkerAction::Finish(Ok(())),
            ),
            WorkerStage::Finished => {
                let worker = Worker { url, analysis_id, next_id, stage: WorkerStage::Finished };
                worker.abort("unexpected event".to_owned())
            },
        }
    }

    /// Takes a worker one step on, as `worker_step` says.
    pub fn on_event(self, event: WorkerEvent) -> (r: (Worker, WorkerAction))
        requires
            self@.well_formed(),
        ensures
            r.0@ == worker_step(self@, event@).0,
            r.1@ == worker_step(self@, event@).1,
            r.0@.well_formed(),
            sends_one_line(r.1),
    {
        if let WorkerStage::Finished = self.stage {
            return self.abort("unexpected event".to_owned());
        }
        match event {
            WorkerEvent::Response(line) => {
                let answer = decode_response(line.as_str());
                self.on_answer(answer)
            },
            WorkerEvent::WriteFailed(detail) => {
                let mut message = "mcp write: ".to_owned();
                message.append(detail.as_str());
                self.abort(message)
            },
            WorkerEvent::FlushFailed(detail) => {
                let mut message = "mcp flush: ".to_owned();
                message.append(detail.as_str());
                self.abort(message)
            },
            WorkerEvent::ReadFailed(detail) => {
                let mut message = "mcp read: ".to_owned();
                message.append(detail.as_str());
                self.abort(message)
            },
        }
    }
}

} // verus!
