//! The envelopes of the wire protocol: one JSON document on each line.

use crate::codec::{outcome_view, parse, parsed, render, rendered, single_line};
use crate::json::{empty_object, entries_view, push_member, Json, JsonValue};
use crate::text::{decimal, decimal_text, trim, trimmed};
use vstd::prelude::*;
use vstd::string::StringExecFns;

verus! {

/// A request: the identifier that the reply is to echo, the method and its
/// parameters.
#[derive(Debug)]
pub struct Request {
    pub id: Json,
    pub method: String,
    pub params: Json,
}

/// The mathematical model of `Request`.
pub struct RequestModel {
    pub id: JsonValue,
    pub method: Seq<char>,
    pub params: JsonValue,
}

impl View for Request {
    type V = RequestModel;

    open spec fn view(&self) -> RequestModel {
        RequestModel { id: self.id@, method: self.method@, params: self.params@ }
    }
}

/// A response: the identifier of the request with the result, or with the
/// message of the error.
#[derive(Debug)]
pub enum Response {
    Success { id: Json, result: Json },
    Failure { id: Json, message: String },
}

/// The mathematical model of `Response`.
pub enum ResponseModel {
    Success { id: JsonValue, result: JsonValue },
    Failure { id: JsonValue, message: Seq<char> },
}

impl View for Response {
    type V = ResponseModel;

    open spec fn view(&self) -> ResponseModel {
        match self {
            Response::Success { id, result } => ResponseModel::Success { id: id@, result: result@ },
            Response::Failure { id, message } => ResponseModel::Failure {
                id: id@,
                message: message@,
            },
        }
    }
}

impl ResponseModel {
    /// The identifier that the response echoes.
    pub open spec fn id(self) -> JsonValue {
        match self {
            ResponseModel::Success { id, .. } => id,
            ResponseModel::Failure { id, .. } => id,
        }
    }
}

/// A line that is no JSON document: the line, trimmed, and what the parser
/// said of it.
#[derive(Debug)]
pub struct ProtocolParseError {
    pub line: String,
    pub detail: String,
}

/// The mathematical model of `ProtocolParseError`.
pub struct ParseErrorModel {
    pub line: Seq<char>,
    pub detail: Seq<char>,
}

impl View for ProtocolParseError {
    type V = ParseErrorModel;

    open spec fn view(&self) -> ParseErrorModel {
        ParseErrorModel { line: self.line@, detail: self.detail@ }
    }
}

/// The request that a document holds: a missing `id` is `null`, a `method`
/// that is missing or no string is the empty text, and missing `params` are
/// the empty object.
pub open spec fn request_of(document: JsonValue) -> RequestModel {
    RequestModel {
        id: document.member_or("id"@, JsonValue::Null),
        method: match document.member("method"@) {
            Some(JsonValue::Text(method)) => method,
            _ => Seq::empty(),
        },
        params: document.member_or("params"@, empty_object()),
    }
}

/// The request that a line holds, or the error for a line that is no JSON
/// document. Whitespace around the document is passed over.
pub open spec fn decoded_request(line: Seq<char>) -> Result<RequestModel, ParseErrorModel> {
    match parsed(trimmed(line)) {
        Ok(document) => Ok(request_of(document)),
        Err(detail) => Err(ParseErrorModel { line: trimmed(line), detail }),
    }
}

/// The JSON form of a request whose identifier is the number `id`, written
/// as a string.
pub open spec fn request_json(id: u64, method: Seq<char>, params: JsonValue) -> JsonValue {
    JsonValue::Object(
        seq![
            ("id"@, JsonValue::Text(decimal(id as nat))),
            ("method"@, JsonValue::Text(method)),
            ("params"@, params),
        ],
    )
}

/// The JSON form of a response.
pub open spec fn response_json(response: ResponseModel) -> JsonValue {
    match response {
        ResponseModel::Success { id, result } => JsonValue::Object(
            seq![("id"@, id), ("result"@, result)],
        ),
        ResponseModel::Failure { id, message } => JsonValue::Object(
            seq![
                ("id"@, id),
                ("error"@, JsonValue::Object(seq![("message"@, JsonValue::Text(message))])),
            ],
        ),
    }
}

/// The line that carries a document: its compact text and one line feed.
pub open spec fn line_of(document: JsonValue) -> Seq<char> {
    rendered(document).push('\n')
}

/// `line` is one line: it ends in a line feed and holds no other.
pub open spec fn is_one_line(line: Seq<char>) -> bool {
    line.len() > 0 && line[line.len() - 1] == '\n' && single_line(
        line.subrange(0, line.len() - 1),
    )
}

/// What a response document tells the caller: the message of its `error`
/// member where it has one, `unknown mcp error` where that has no message,
/// else its `result`, or `null` where it has none.
pub open spec fn result_of(document: JsonValue) -> Result<JsonValue, Seq<char>> {
    match document.member("error"@) {
        Some(error) => match error.member("message"@) {
            Some(JsonValue::Text(message)) => Err(message),
            _ => Err("unknown mcp error"@),
        },
        None => Ok(document.member_or("result"@, JsonValue::Null)),
    }
}

/// What a response line tells the caller; a line that is no JSON document
/// is an error of its own.
pub open spec fn decoded_response(line: Seq<char>) -> Result<JsonValue, Seq<char>> {
    match parsed(trimmed(line)) {
        Ok(document) => result_of(document),
        Err(detail) => Err("mcp parse: "@ + detail),
    }
}

/// The model of a decoded request or its error.
pub open spec fn decode_view(r: Result<Request, ProtocolParseError>) -> Result<
    RequestModel,
    ParseErrorModel,
> {
    match r {
        Ok(request) => Ok(request@),
        Err(error) => Err(error@),
    }
}

/// Writes a document on one line.
pub fn encode(document: &Json) -> (line: String)
    ensures
        line@ == line_of(document@),
        is_one_line(line@),
{
    let mut line = render(document);
    let ghost text = line@;
    line.push('\n');
    assert(line@.subrange(0, line@.len() - 1) =~= text);
    line
}

impl Request {
    /// The request that a document holds.
    pub fn from_json(document: &Json) -> (r: Request)
        ensures
            r@ == request_of(document@),
    {
        let method = match document.get("method") {
            Some(Json::Text(method)) => method.clone(),
            _ => String::new(),
        };
        Request {
            id: document.get_or_null("id"),
            method,
            params: document.get_or_empty("params"),
        }
    }
}

impl Response {
    /// The JSON form of this response.
    pub fn to_json(&self) -> (r: Json)
        ensures
            r@ == response_json(self@),
    {
        let mut entries: Vec<(String, Json)> = Vec::new();
        assert(entries_view(entries@) =~= Seq::empty());
        match self {
            Response::Success { id, result } => {
                push_member(&mut entries, "id", id.clone());
                push_member(&mut entries, "result", result.clone());
                let r = Json::object(entries);
                assert(r@->Object_0 =~= response_json(self@)->Object_0);
                r
            },
            Response::Failure { id, message } => {
                let mut inner: Vec<(String, Json)> = Vec::new();
                assert(entries_view(inner@) =~= Seq::empty());
                push_member(&mut inner, "message", Json::text(message.as_str()));
                let error = Json::object(inner);
                assert(error@->Object_0 =~= seq![("message"@, JsonValue::Text(message@))]);
                push_member(&mut entries, "id", id.clone());
                push_member(&mut entries, "error", error);
                let r = Json::object(entries);
                assert(r@->Object_0 =~= response_json(self@)->Object_0);
                r
            },
        }
    }
}

impl ProtocolParseError {
    /// The message that reports this error to the peer.
    pub open spec fn message_of(error: ParseErrorModel) -> Seq<char> {
        "invalid json: "@ + error.detail
    }

    /// The message that reports this error to the peer.
    pub fn message(&self) -> (r: String)
        ensures
            r@ == Self::message_of(self@),
    {
        let mut message = "invalid json: ".to_owned();
        message.append(self.detail.as_str());
        message
    }
}

/// Reads a request off a line.
pub fn decode_request(line: &str) -> (r: Result<Request, ProtocolParseError>)
    ensures
        decode_view(r) == decoded_request(line@),
{
    let text = trim(line);
    match parse(text.as_str()) {
        Ok(document) => Ok(Request::from_json(&document)),
        Err(detail) => Err(ProtocolParseError { line: text, detail }),
    }
}

/// Writes a response on one line.
pub fn encode_response(response: &Response) -> (line: String)
    ensures
        line@ == line_of(response_json(response@)),
        is_one_line(line@),
{
    encode(&response.to_json())
}

/// Writes a request on one line; its identifier is the number `id`, written
/// as a string.
pub fn encode_request(id: u64, method: &str, params: Json) -> (line: String)
    ensures
        line@ == line_of(request_json(id, method@, params@)),
        is_one_line(line@),
{
    let mut entries: Vec<(String, Json)> = Vec::new();
    assert(entries_view(entries@) =~= Seq::empty());
    push_member(&mut entries, "id", Json::Text(decimal_text(id)));
    push_member(&mut entries, "method", Json::text(method));
    push_member(&mut entries, "params", params);
    let request = Json::object(entries);
    assert(request@->Object_0 =~= request_json(id, method@, params@)->Object_0);
    encode(&request)
}

/// What a response document tells the caller.
pub fn read_result(document: &Json) -> (r: Result<Json, String>)
    ensures
        outcome_view(r) == result_of(document@),
{
    match document.get("error") {
        Some(error) => match error.get("message") {
            Some(Json::Text(message)) => Err(message.clone()),
            _ => Err("unknown mcp error".to_owned()),
        },
        None => Ok(document.get_or_null("result")),
    }
}

/// Reads what a response line tells the caller.
pub fn decode_response(line: &str) -> (r: Result<Json, String>)
    ensures
        outcome_view(r) == decoded_response(line@),
{
    let text = trim(line);
    match parse(text.as_str()) {
        Ok(document) => read_result(&document),
        Err(detail) => {
            let mut message = "mcp parse: ".to_owned();
            message.append(detail.as_str());
            Err(message)
        },
    }
}

} // verus!
