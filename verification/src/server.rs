//! The server's side of a connection: what it answers to a request, and the
//! states it goes through between reading a line and writing the reply.

use crate::envelope::{
    decode_request, decoded_request, encode_response, is_one_line, line_of, response_json,
    ParseErrorModel, ProtocolParseError, Request, RequestModel, Response, ResponseModel,
};
use crate::json::{empty_object, entries_view, push_member, Json, JsonValue};
use crate::stamp::{current_timestamp, fresh_identity, IDENTITY_CHARS, TIMESTAMP_CHARS};
use crate::text::{contains, text_is};
use crate::tools::{
    call_of, definitions_json, is_tool, lemma_unknown_tool, read_call, reply, reply_of,
    tool_definitions_json, tool_table, unknown_tool, CallModel, Notification,
    NotificationModel, OutcomeModel, ReplyModel, ToolCall, ToolOutcome, ToolReply,
};
use vstd::prelude::*;
use vstd::string::StringExecFns;

verus! {

/// What a request leads to: a response at once, or a call of a tool whose
/// outcome the response has to wait for.
#[derive(Debug)]
pub enum Dispatch {
    Respond(Response),
    Call { id: Json, call: ToolCall },
}

/// The mathematical model of `Dispatch`.
pub enum DispatchModel {
    Respond(ResponseModel),
    Call { id: JsonValue, call: CallModel },
}

impl View for Dispatch {
    type V = DispatchModel;

    open spec fn view(&self) -> DispatchModel {
        match self {
            Dispatch::Respond(response) => DispatchModel::Respond(response@),
            Dispatch::Call { id, call } => DispatchModel::Call { id: id@, call: call@ },
        }
    }
}

/// What `initialize` answers: the version of the protocol and the identity
/// of the server.
pub open spec fn server_identity() -> JsonValue {
    JsonValue::Object(
        seq![
            ("protocolVersion"@, JsonValue::Text("0.1"@)),
            (
                "serverInfo"@,
                JsonValue::Object(
                    seq![
                        ("name"@, JsonValue::Text("job-hunter-mcp"@)),
                        ("version"@, JsonValue::Text("0.1.0"@)),
                    ],
                ),
            ),
        ],
    )
}

/// What `list_tools` answers: the table of the tools.
pub open spec fn tool_listing() -> JsonValue {
    JsonValue::Object(seq![("tools"@, JsonValue::Array(definitions_json(tool_table())))])
}

/// The name of the tool that the parameters of `call_tool` give: their
/// `name`, or the empty text where it is missing or no string.
pub open spec fn called_name(params: JsonValue) -> Seq<char> {
    match params.member("name"@) {
        Some(JsonValue::Text(name)) => name,
        _ => Seq::empty(),
    }
}

/// `method` is one of the methods that the server has.
pub open spec fn is_method(method: Seq<char>) -> bool {
    method == "initialize"@ || method == "list_tools"@ || method == "call_tool"@
}

/// The message of a request for a method that the server does not have.
pub open spec fn unknown_method(method: Seq<char>) -> Seq<char> {
    "unknown method: "@ + method
}

/// What a request leads to, where `record_id` and `created_at` are the
/// identity and the creation time that a new record is to get.
pub open spec fn dispatch_of(request: RequestModel, record_id: Seq<char>, created_at: Seq<char>)
    -> DispatchModel {
    if request.method == "initialize"@ {
        DispatchModel::Respond(
            ResponseModel::Success { id: request.id, result: server_identity() },
        )
    } else if request.method == "list_tools"@ {
        DispatchModel::Respond(ResponseModel::Success { id: request.id, result: tool_listing() })
    } else if request.method == "call_tool"@ {
        match call_of(
            called_name(request.params),
            request.params.member_or("arguments"@, empty_object()),
            record_id,
            created_at,
        ) {
            Ok(call) => DispatchModel::Call { id: request.id, call },
            Err(error) => DispatchModel::Respond(
                ResponseModel::Failure { id: request.id, message: error.message() },
            ),
        }
    } else {
        DispatchModel::Respond(
            ResponseModel::Failure { id: request.id, message: unknown_method(request.method) },
        )
    }
}

/// The response that ends a call: the result or the error of the reply,
/// under the identifier of the request.
pub open spec fn response_to(id: JsonValue, reply: ReplyModel) -> ResponseModel {
    match reply.result {
        Ok(result) => ResponseModel::Success { id, result },
        Err(error) => ResponseModel::Failure { id, message: error.message() },
    }
}

/// The response to a line that is no JSON document: an error without an
/// identifier.
pub open spec fn response_to_malformed(error: ParseErrorModel) -> ResponseModel {
    ResponseModel::Failure {
        id: JsonValue::Null,
        message: ProtocolParseError::message_of(error),
    }
}

/// What `initialize` answers.
fn identity_result() -> (r: Json)
    ensures
        r@ == server_identity(),
{
    let mut info: Vec<(String, Json)> = Vec::new();
    assert(entries_view(info@) =~= Seq::empty());
    push_member(&mut info, "name", Json::text("job-hunter-mcp"));
    push_member(&mut info, "version", Json::text("0.1.0"));
    let info = Json::object(info);
    assert(info@->Object_0 =~= seq![
        ("name"@, JsonValue::Text("job-hunter-mcp"@)),
        ("version"@, JsonValue::Text("0.1.0"@)),
    ]);
    let mut entries: Vec<(String, Json)> = Vec::new();
    assert(entries_view(entries@) =~= Seq::empty());
    push_member(&mut entries, "protocolVersion", Json::text("0.1"));
    push_member(&mut entries, "serverInfo", info);
    let r = Json::object(entries);
    assert(r@->Object_0 =~= server_identity()->Object_0);
    r
}

/// What `list_tools` answers.
fn listing_result() -> (r: Json)
    ensures
        r@ == tool_listing(),
{
    let mut entries: Vec<(String, Json)> = Vec::new();
    assert(entries_view(entries@) =~= Seq::empty());
    push_member(&mut entries, "tools", tool_definitions_json());
    let r = Json::object(entries);
    assert(r@->Object_0 =~= tool_listing()->Object_0);
    r
}

/// Decides what a request leads to. A new record gets the identity
/// `record_id` and the creation time `created_at`.
pub fn dispatch(request: Request, record_id: String, created_at: String) -> (r: Dispatch)
    ensures
        r@ == dispatch_of(request@, record_id@, created_at@),
{
    let Request { id, method, params } = request;
    if text_is(method.as_str(), "initialize") {
        Dispatch::Respond(Response::Success { id, result: identity_result() })
    } else if text_is(method.as_str(), "list_tools") {
        Dispatch::Respond(Response::Success { id, result: listing_result() })
    } else if text_is(method.as_str(), "call_tool") {
        let name: String = match params.get("name") {
            Some(Json::Text(name)) => name.clone(),
            _ => String::new(),
        };
        let arguments = params.get_or_empty("arguments");
        match read_call(name.as_str(), &arguments, record_id, created_at) {
            Ok(call) => Dispatch::Call { id, call },
            Err(error) => Dispatch::Respond(Response::Failure { id, message: error.message() }),
        }
    } else {
        let mut message = "unknown method: ".to_owned();
        message.append(method.as_str());
        Dispatch::Respond(Response::Failure { id, message })
    }
}

/// The response that ends a call.
pub fn respond_to(id: Json, reply: ToolReply) -> (r: (Response, Option<Notification>))
    ensures
        r.0@ == response_to(id@, reply@),
        match r.1 {
            Some(n) => reply@.notification == Some(n@),
            None => reply@.notification is None,
        },
{
    let ToolReply { result, notification } = reply;
    let response = match result {
        Ok(result) => Response::Success { id, result },
        Err(error) => Response::Failure { id, message: error.message() },
    };
    (response, notification)
}

/// Where a connection stands: waiting for a line, waiting for the outcome
/// of a tool, writing a response, or closed.
#[derive(Debug)]
pub enum ConnectionState {
    AwaitingLine,
    Dispatching { id: Json, call: ToolCall },
    Writing,
    Closed,
}

/// The mathematical model of `ConnectionState`.
pub enum StateModel {
    AwaitingLine,
    Dispatching { id: JsonValue, call: CallModel },
    Writing,
    Closed,
}

impl View for ConnectionState {
    type V = StateModel;

    open spec fn view(&self) -> StateModel {
        match self {
            ConnectionState::AwaitingLine => StateModel::AwaitingLine,
            ConnectionState::Dispatching { id, call } => StateModel::Dispatching {
                id: id@,
                call: call@,
            },
            ConnectionState::Writing => StateModel::Writing,
            ConnectionState::Closed => StateModel::Closed,
        }
    }
}

/// What happened on a connection: a line came in, the peer closed, reading
/// failed, the tool finished, the response went out, or writing failed.
#[derive(Debug)]
pub enum ConnectionEvent {
    Line(String),
    EndOfInput,
    ReadFailed(String),
    ToolFinished(ToolOutcome),
    Written,
    WriteFailed(String),
}

/// The mathematical model of `ConnectionEvent`.
pub enum EventModel {
    Line(Seq<char>),
    EndOfInput,
    ReadFailed(Seq<char>),
    ToolFinished(OutcomeModel),
    Written,
    WriteFailed(Seq<char>),
}

impl View for ConnectionEvent {
    type V = EventModel;

    open spec fn view(&self) -> EventModel {
        match self {
            ConnectionEvent::Line(line) => EventModel::Line(line@),
            ConnectionEvent::EndOfInput => EventModel::EndOfInput,
            ConnectionEvent::ReadFailed(message) => EventModel::ReadFailed(message@),
            ConnectionEvent::ToolFinished(outcome) => EventModel::ToolFinished(outcome@),
            ConnectionEvent::Written => EventModel::Written,
            ConnectionEvent::WriteFailed(message) => EventModel::WriteFailed(message@),
        }
    }
}

/// What the driver of a connection is to do next: read a line, run the
/// call that the state holds, send the event and write the line, or stop.
#[derive(Debug)]
pub enum ConnectionAction {
    ReadLine,
    RunTool,
    WriteLine { line: String, notification: Option<Notification> },
    Stop(Result<(), String>),
}

/// The mathematical model of `ConnectionAction`: in place of the line, the
/// response that it carries.
pub enum ActionModel {
    ReadLine,
    RunTool,
    WriteLine { response: ResponseModel, notification: Option<NotificationModel> },
    Stop(Result<(), Seq<char>>),
}

/// The action is the one that the model describes; a line to write is the
/// one line that carries the response.
pub open spec fn action_is(action: ConnectionAction, model: ActionModel) -> bool {
    match action {
        ConnectionAction::ReadLine => model is ReadLine,
        ConnectionAction::RunTool => model is RunTool,
        ConnectionAction::WriteLine { line, notification } => model matches ActionModel::WriteLine {
            response,
            notification: sent,
        } && line@ == line_of(response_json(response)) && is_one_line(line@) && (match notification {
            Some(n) => sent == Some(n@),
            None => sent is None,
        }),
        ConnectionAction::Stop(Ok(())) => model == ActionModel::Stop(Ok(())),
        ConnectionAction::Stop(Err(message)) => model == ActionModel::Stop(Err(message@)),
    }
}

/// The step that writes `response`.
pub open spec fn write_step(response: ResponseModel, notification: Option<NotificationModel>) -> (
    StateModel,
    ActionModel,
) {
    (StateModel::Writing, ActionModel::WriteLine { response, notification })
}

/// The step that closes the connection.
pub open spec fn stop_step(end: Result<(), Seq<char>>) -> (StateModel, ActionModel) {
    (StateModel::Closed, ActionModel::Stop(end))
}

/// The step that a line leads to.
pub open spec fn line_step(line: Seq<char>, record_id: Seq<char>, created_at: Seq<char>) -> (
    StateModel,
    ActionModel,
) {
    match decoded_request(line) {
        Ok(request) => match dispatch_of(request, record_id, created_at) {
            DispatchModel::Respond(response) => write_step(response, None),
            DispatchModel::Call { id, call } => (
                StateModel::Dispatching { id, call },
                ActionModel::RunTool,
            ),
        },
        Err(error) => write_step(response_to_malformed(error), None),
    }
}

/// The next state of a connection and what its driver is to do, where
/// `record_id` and `created_at` are the identity and the creation time that
/// a new record is to get. An event that the state does not wait for closes
/// the connection.
pub open spec fn step_of(
    state: StateModel,
    event: EventModel,
    record_id: Seq<char>,
    created_at: Seq<char>,
) -> (StateModel, ActionModel) {
    match (state, event) {
        (StateModel::AwaitingLine, EventModel::Line(line)) => line_step(
            line,
            record_id,
            created_at,
        ),
        (StateModel::AwaitingLine, EventModel::EndOfInput) => stop_step(Ok(())),
        (StateModel::AwaitingLine, EventModel::ReadFailed(message)) => stop_step(
            Err("mcp read: "@ + message),
        ),
        (StateModel::Dispatching { id, call }, EventModel::ToolFinished(outcome)) => write_step(
            response_to(id, reply_of(call, outcome)),
            reply_of(call, outcome).notification,
        ),
        (StateModel::Writing, EventModel::Written) => (
            StateModel::AwaitingLine,
            ActionModel::ReadLine,
        ),
        (StateModel::Writing, EventModel::WriteFailed(message)) => stop_step(
            Err("mcp write: "@ + message),
        ),
        _ => stop_step(Err("unexpected event"@)),
    }
}

/// `prefix` followed by `message`.
fn prefixed(prefix: &str, message: &str) -> (r: String)
    ensures
        r@ == prefix@ + message@,
{
    let mut out = prefix.to_owned();
    out.append(message);
    out
}

/// The step that writes `response`.
fn write(response: Response, notification: Option<Notification>) -> (r: (
    ConnectionState,
    ConnectionAction,
))
    ensures
        r.0@ == StateModel::Writing,
        action_is(
            r.1,
            ActionModel::WriteLine {
                response: response@,
                notification: match notification {
                    Some(n) => Some(n@),
                    None => None,
                },
            },
        ),
{
    let line = encode_response(&response);
    (ConnectionState::Writing, ConnectionAction::WriteLine { line, notification })
}

/// The step that closes the connection with an error.
fn fail(message: String) -> (r: (ConnectionState, ConnectionAction))
    ensures
        r.0@ == StateModel::Closed,
        action_is(r.1, ActionModel::Stop(Err(message@))),
{
    (ConnectionState::Closed, ConnectionAction::Stop(Err(message)))
}

/// Handles one line: reads the request, decides what it leads to, and
/// writes the response unless a tool has to run first. A new record gets
/// the identity `record_id` and the creation time `created_at`.
pub fn handle_line(line: &str, record_id: String, created_at: String) -> (r: (
    ConnectionState,
    ConnectionAction,
))
    ensures
        r.0@ == line_step(line@, record_id@, created_at@).0,
        action_is(r.1, line_step(line@, record_id@, created_at@).1),
{
    match decode_request(line) {
        Ok(request) => match dispatch(request, record_id, created_at) {
            Dispatch::Respond(response) => write(response, None),
            Dispatch::Call { id, call } => (
                ConnectionState::Dispatching { id, call },
                ConnectionAction::RunTool,
            ),
        },
        Err(error) => {
            let response = Response::Failure { id: Json::Null, message: error.message() };
            write(response, None)
        },
    }
}

/// Takes a connection one step on, as `step_of` says. A new record gets the
/// identity `record_id` and the creation time `created_at`.
pub fn advance_with(
    state: ConnectionState,
    event: ConnectionEvent,
    record_id: String,
    created_at: String,
) -> (r: (ConnectionState, ConnectionAction))
    ensures
        r.0@ == step_of(state@, event@, record_id@, created_at@).0,
        action_is(r.1, step_of(state@, event@, record_id@, created_at@).1),
{
    match state {
        ConnectionState::AwaitingLine => match event {
            ConnectionEvent::Line(line) => handle_line(line.as_str(), record_id, created_at),
            ConnectionEvent::EndOfInput => (
                ConnectionState::Closed,
                ConnectionAction::Stop(Ok(())),
            ),
            ConnectionEvent::ReadFailed(message) => fail(prefixed("mcp read: ", message.as_str())),
            _ => fail("unexpected event".to_owned()),
        },
        ConnectionState::Dispatching { id, call } => match event {
            ConnectionEvent::ToolFinished(outcome) => {
                let (response, notification) = respond_to(id, reply(call, outcome));
                write(response, notification)
            },
            _ => fail("unexpected event".to_owned()),
        },
        ConnectionState::Writing => match event {
            ConnectionEvent::Written => (ConnectionState::AwaitingLine, ConnectionAction::ReadLine),
            ConnectionEvent::WriteFailed(message) => fail(
                prefixed("mcp write: ", message.as_str()),
            ),
            _ => fail("unexpected event".to_owned()),
        },
        ConnectionState::Closed => fail("unexpected event".to_owned()),
    }
}

/// Takes a connection one step on, with a fresh identity and the current
/// time for a new record. Whatever these two are, they have the length of
/// their forms, and the step is the one that `step_of` gives for them.
pub fn advance(state: ConnectionState, event: ConnectionEvent) -> (r: (
    ConnectionState,
    ConnectionAction,
))
    ensures
        exists|record_id: Seq<char>, created_at: Seq<char>|
            record_id.len() == IDENTITY_CHARS && created_at.len() >= TIMESTAMP_CHARS && r.0@
                == step_of(state@, event@, record_id, created_at).0 && action_is(
                r.1,
                step_of(state@, event@, record_id, created_at).1,
            ),
{
    let reads_line = match (&state, &event) {
        (ConnectionState::AwaitingLine, ConnectionEvent::Line(_)) => true,
        _ => false,
    };
    if reads_line {
        let record_id = fresh_identity();
        let created_at = current_timestamp();
        let ghost stamp = (record_id@, created_at@);
        let r = advance_with(state, event, record_id, created_at);
        assert(stamp.0.len() == IDENTITY_CHARS && stamp.1.len() >= TIMESTAMP_CHARS && r.0@
            == step_of(state@, event@, stamp.0, stamp.1).0 && action_is(
            r.1,
            step_of(state@, event@, stamp.0, stamp.1).1,
        ));
        r
    } else {
        // Only a line can lead to a new record, so any identity and time
        // will do.
        let ghost stamp = (
            Seq::new(IDENTITY_CHARS as nat, |i: int| '0'),
            Seq::new(TIMESTAMP_CHARS as nat, |i: int| '0'),
        );
        let r = advance_with(state, event, String::new(), String::new());
        assert(stamp.0.len() == IDENTITY_CHARS && stamp.1.len() >= TIMESTAMP_CHARS && r.0@
            == step_of(state@, event@, stamp.0, stamp.1).0 && action_is(
            r.1,
            step_of(state@, event@, stamp.0, stamp.1).1,
        ));
        r
    }
}

/// A well-formed line that asks for a method of the server is answered by
/// one response that echoes the identifier of the request: at once, or, for
/// a call of a tool, when the tool has finished, whatever its outcome.
/// After the response the connection waits for the next line.
pub proof fn lemma_request_answered_once(
    line: Seq<char>,
    outcome: OutcomeModel,
    record_id: Seq<char>,
    created_at: Seq<char>,
)
    requires
        decoded_request(line) is Ok,
        is_method(decoded_request(line)->Ok_0.method),
    ensures
        ({
            let request = decoded_request(line)->Ok_0;
            let first = step_of(
                StateModel::AwaitingLine,
                EventModel::Line(line),
                record_id,
                created_at,
            );
            let second = step_of(
                first.0,
                EventModel::ToolFinished(outcome),
                record_id,
                created_at,
            );
            let answer = if first.1 is RunTool {
                second
            } else {
                first
            };
            &&& first.1 is RunTool <==> first.0 is Dispatching
            &&& answer.0 is Writing
            &&& answer.1 is WriteLine
            &&& answer.1->WriteLine_response.id() == request.id
            &&& step_of(answer.0, EventModel::Written, record_id, created_at) == (
                StateModel::AwaitingLine,
                ActionModel::ReadLine,
            )
        }),
{
}

/// A line that is no JSON document is answered by an error without an
/// identifier, and closes nothing: once the error is written the connection
/// waits for the next line, which is handled as any line is.
pub proof fn lemma_malformed_line_recovered(
    line: Seq<char>,
    next: Seq<char>,
    record_id: Seq<char>,
    created_at: Seq<char>,
)
    requires
        decoded_request(line) is Err,
    ensures
        ({
            let first = step_of(
                StateModel::AwaitingLine,
                EventModel::Line(line),
                record_id,
                created_at,
            );
            let second = step_of(first.0, EventModel::Written, record_id, created_at);
            &&& first.0 is Writing
            &&& first.1 == ActionModel::WriteLine {
                response: response_to_malformed(decoded_request(line)->Err_0),
                notification: None,
            }
            &&& second == (StateModel::AwaitingLine, ActionModel::ReadLine)
            &&& step_of(second.0, EventModel::Line(next), record_id, created_at) == line_step(
                next,
                record_id,
                created_at,
            )
        }),
{
}

/// A call of a tool that the host does not have is answered by an error
/// that echoes the identifier of the request and holds the name of the
/// tool.
pub proof fn lemma_unknown_tool_answered(
    request: RequestModel,
    record_id: Seq<char>,
    created_at: Seq<char>,
)
    requires
        request.method == "call_tool"@,
        !is_tool(called_name(request.params)),
    ensures
        dispatch_of(request, record_id, created_at) == DispatchModel::Respond(
            ResponseModel::Failure {
                id: request.id,
                message: unknown_tool(called_name(request.params)),
            },
        ),
        contains(unknown_tool(called_name(request.params)), called_name(request.params)),
{
    let name = called_name(request.params);
    lemma_unknown_tool(
        name,
        request.params.member_or("arguments"@, empty_object()),
        record_id,
        created_at,
    );
    reveal_strlit("call_tool");
    reveal_strlit("initialize");
    reveal_strlit("list_tools");
    assert("call_tool"@[0] != "initialize"@[0]);
    assert("call_tool"@[0] != "list_tools"@[0]);
    let message = unknown_tool(name);
    let at = "unknown tool: "@.len() as int;
    assert(message.subrange(at, at + name.len()) =~= name);
    assert(crate::text::occurs_at(message, name, at));
}

} // verus!
