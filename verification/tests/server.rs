use job_hunter::codec::parse;
use job_hunter::envelope::{
    decode_request, decode_response, encode, encode_request, encode_response, read_result,
    Request, Response,
};
use job_hunter::json::Json;
use job_hunter::server::{
    advance, advance_with, dispatch, handle_line, respond_to, ConnectionAction, ConnectionEvent,
    ConnectionState, Dispatch,
};
use job_hunter::tools::{ToolCall, ToolError, ToolOutcome, ToolReply};

fn written(action: ConnectionAction) -> Json {
    match action {
        ConnectionAction::WriteLine { line, .. } => {
            assert!(line.ends_with('\n'));
            assert_eq!(line.matches('\n').count(), 1);
            parse(&line).unwrap()
        }
        other => panic!("unexpected {:?}", other),
    }
}

fn line(text: &str) -> (ConnectionState, ConnectionAction) {
    handle_line(text, "id-1".to_string(), "now".to_string())
}

fn error_message(response: &Json) -> String {
    response.get("error").unwrap().get("message").unwrap().as_str().unwrap().to_string()
}

#[test]
fn list_tools_answers_with_all_eight_definitions() {
    let (state, action) = line("{\"id\":\"1\",\"method\":\"list_tools\",\"params\":{}}\n");
    assert!(matches!(state, ConnectionState::Writing));
    let response = written(action);
    assert_eq!(response.get("id").unwrap().as_str(), Some("1"));
    let names: Vec<String> = match response.get("result").unwrap().get("tools").unwrap() {
        Json::Array(tools) => tools.iter().map(|t| t.get("name").unwrap().as_str().unwrap().to_string()).collect(),
        _ => panic!("expected an array"),
    };
    assert_eq!(
        names,
        vec![
            "set_query_params",
            "fetch_content",
            "reload_page",
            "get_settings",
            "set_settings",
            "save_job_match",
            "list_job_matches",
            "clear_job_matches"
        ]
    );
}

#[test]
fn initialize_answers_with_version_and_identity() {
    let (_, action) = line("{\"id\":7,\"method\":\"initialize\"}");
    let response = written(action);
    assert_eq!(response.get("id").unwrap().as_u64(), Some(7));
    let result = response.get("result").unwrap();
    assert_eq!(result.get("protocolVersion").unwrap().as_str(), Some("0.1"));
    let info = result.get("serverInfo").unwrap();
    assert_eq!(info.get("name").unwrap().as_str(), Some("job-hunter-mcp"));
    assert_eq!(info.get("version").unwrap().as_str(), Some("0.1.0"));
}

#[test]
fn response_echoes_whatever_identifier_came() {
    for id in ["\"abc\"", "17", "null", "[1,2]", "{\"k\":true}", "-2.5"] {
        let text = format!("{{\"id\":{},\"method\":\"initialize\",\"params\":{{}}}}", id);
        let (_, action) = line(&text);
        let response = written(action);
        assert_eq!(
            job_hunter::codec::render(response.get("id").unwrap()),
            job_hunter::codec::render(&parse(id).unwrap())
        );
    }
    let (_, action) = line("{\"method\":\"initialize\"}");
    assert!(matches!(written(action).get("id"), Some(Json::Null)));
}

#[test]
fn unknown_method_is_an_error_envelope() {
    let (state, action) = line("{\"id\":3,\"method\":\"shutdown\"}");
    assert!(matches!(state, ConnectionState::Writing));
    let response = written(action);
    assert_eq!(response.get("id").unwrap().as_u64(), Some(3));
    assert_eq!(error_message(&response), "unknown method: shutdown");
    assert!(response.get("result").is_none());
    assert_eq!(error_message(&written(line("{}").1)), "unknown method: ");
    assert_eq!(error_message(&written(line("[1]").1)), "unknown method: ");
    assert_eq!(error_message(&written(line("{\"method\":5}").1)), "unknown method: ");
}

#[test]
fn malformed_line_is_answered_and_the_connection_goes_on() {
    let (state, action) = advance(ConnectionState::AwaitingLine, ConnectionEvent::Line("{oops\n".to_string()));
    assert!(matches!(state, ConnectionState::Writing));
    let response = written(action);
    assert!(matches!(response.get("id"), Some(Json::Null)));
    assert!(error_message(&response).starts_with("invalid json: "));
    let (state, action) = advance(state, ConnectionEvent::Written);
    assert!(matches!(state, ConnectionState::AwaitingLine));
    assert!(matches!(action, ConnectionAction::ReadLine));
    let (state, action) = advance(state, ConnectionEvent::Line("{\"id\":2,\"method\":\"initialize\"}".to_string()));
    assert!(matches!(state, ConnectionState::Writing));
    assert_eq!(written(action).get("id").unwrap().as_u64(), Some(2));
}

#[test]
fn empty_line_is_malformed() {
    let (_, action) = line("   \n");
    assert!(error_message(&written(action)).starts_with("invalid json: "));
}

#[test]
fn unregistered_tool_is_answered_with_its_name() {
    let (state, action) = line("{\"id\":\"9\",\"method\":\"call_tool\",\"params\":{\"name\":\"teleport\",\"arguments\":{}}}");
    assert!(matches!(state, ConnectionState::Writing));
    let response = written(action);
    assert_eq!(response.get("id").unwrap().as_str(), Some("9"));
    assert_eq!(error_message(&response), "unknown tool: teleport");
    let (_, action) = line("{\"id\":1,\"method\":\"call_tool\"}");
    assert_eq!(error_message(&written(action)), "unknown tool: ");
}

#[test]
fn tool_call_waits_for_the_outcome_and_then_answers() {
    let text = "{\"id\":\"4\",\"method\":\"call_tool\",\"params\":{\"name\":\"clear_job_matches\"}}";
    let (state, action) = advance(ConnectionState::AwaitingLine, ConnectionEvent::Line(text.to_string()));
    assert!(matches!(action, ConnectionAction::RunTool));
    assert!(matches!(&state, ConnectionState::Dispatching { call: ToolCall::ClearJobMatches, .. }));
    let (state, action) = advance(state, ConnectionEvent::ToolFinished(ToolOutcome::Done));
    assert!(matches!(state, ConnectionState::Writing));
    let response = written(action);
    assert_eq!(response.get("id").unwrap().as_str(), Some("4"));
    assert!(matches!(response.get("result").unwrap().get("ok"), Some(Json::Bool(true))));
}

#[test]
fn saved_record_is_stamped_when_its_line_is_read() {
    let text = "{\"id\":8,\"method\":\"call_tool\",\"params\":{\"name\":\"save_job_match\",\"arguments\":{\"url\":\"u\",\"summary\":\"s\",\"match_score\":1}}}";
    let (state, action) = advance(ConnectionState::AwaitingLine, ConnectionEvent::Line(text.to_string()));
    assert!(matches!(action, ConnectionAction::RunTool));
    match state {
        ConnectionState::Dispatching { call: ToolCall::SaveJobMatch { record }, .. } => {
            assert_eq!(record.id.chars().count(), 36);
            assert!(record.created_at.chars().count() >= 25);
            assert_eq!(record.url, "u");
        }
        other => panic!("unexpected {:?}", other),
    }
}

#[test]
fn failed_tool_is_an_error_envelope_with_the_same_identifier() {
    let text = "{\"id\":5,\"method\":\"call_tool\",\"params\":{\"name\":\"list_job_matches\",\"arguments\":{\"limit\":1}}}";
    let (state, _) = line(text);
    let (state, action) = advance(state, ConnectionEvent::ToolFinished(ToolOutcome::Failed("db lock poisoned".to_string())));
    assert!(matches!(state, ConnectionState::Writing));
    let response = written(action);
    assert_eq!(response.get("id").unwrap().as_u64(), Some(5));
    assert_eq!(error_message(&response), "db lock poisoned");
}

#[test]
fn tool_event_travels_with_the_response() {
    let text = "{\"id\":6,\"method\":\"call_tool\",\"params\":{\"name\":\"reload_page\"}}";
    let (state, _) = line(text);
    let (_, action) = advance(state, ConnectionEvent::ToolFinished(ToolOutcome::Done));
    match action {
        ConnectionAction::WriteLine { notification: Some(n), .. } => assert_eq!(n.event, "mcp:reload"),
        other => panic!("unexpected {:?}", other),
    }
}

#[test]
fn connection_closes_on_end_of_input_and_on_failures() {
    let (state, action) = advance(ConnectionState::AwaitingLine, ConnectionEvent::EndOfInput);
    assert!(matches!(state, ConnectionState::Closed));
    assert!(matches!(action, ConnectionAction::Stop(Ok(()))));
    let (state, action) = advance(ConnectionState::AwaitingLine, ConnectionEvent::ReadFailed("reset".to_string()));
    assert!(matches!(state, ConnectionState::Closed));
    assert!(matches!(action, ConnectionAction::Stop(Err(m)) if m == "mcp read: reset"));
    let (state, action) = advance(ConnectionState::Writing, ConnectionEvent::WriteFailed("pipe".to_string()));
    assert!(matches!(state, ConnectionState::Closed));
    assert!(matches!(action, ConnectionAction::Stop(Err(m)) if m == "mcp write: pipe"));
}

#[test]
fn event_out_of_turn_closes_the_connection() {
    let cases = vec![
        (ConnectionState::AwaitingLine, ConnectionEvent::Written),
        (ConnectionState::AwaitingLine, ConnectionEvent::ToolFinished(ToolOutcome::Done)),
        (ConnectionState::Writing, ConnectionEvent::Line("{}".to_string())),
        (ConnectionState::Writing, ConnectionEvent::EndOfInput),
        (ConnectionState::Closed, ConnectionEvent::Line("{}".to_string())),
        (
            ConnectionState::Dispatching { id: Json::Null, call: ToolCall::ReloadPage },
            ConnectionEvent::Written,
        ),
    ];
    for (state, event) in cases {
        let (state, action) = advance_with(state, event, String::new(), String::new());
        assert!(matches!(state, ConnectionState::Closed));
        assert!(matches!(action, ConnectionAction::Stop(Err(m)) if m == "unexpected event"));
    }
}

#[test]
fn dispatch_routes_by_method() {
    let request = |method: &str, params: &str| Request {
        id: Json::text("r"),
        method: method.to_string(),
        params: parse(params).unwrap(),
    };
    let d = dispatch(request("call_tool", "{\"name\":\"get_settings\"}"), String::new(), String::new());
    assert!(matches!(d, Dispatch::Call { call: ToolCall::GetSettings, .. }));
    let d = dispatch(request("call_tool", "{\"name\":\"fetch_content\",\"arguments\":{}}"), String::new(), String::new());
    assert!(matches!(d, Dispatch::Respond(Response::Failure { message, .. }) if message == "url is required"));
    let d = dispatch(request("Initialize", "{}"), String::new(), String::new());
    assert!(matches!(d, Dispatch::Respond(Response::Failure { message, .. }) if message == "unknown method: Initialize"));
}

#[test]
fn respond_to_wraps_result_and_error() {
    let (response, notification) = respond_to(Json::unsigned(1), ToolReply { result: Ok(Json::Bool(true)), notification: None });
    assert!(matches!(response, Response::Success { result: Json::Bool(true), .. }));
    assert!(notification.is_none());
    let (response, _) = respond_to(Json::unsigned(1), ToolReply { result: Err(ToolError::Execution { message: "bad".to_string() }), notification: None });
    assert!(matches!(response, Response::Failure { message, .. } if message == "bad"));
}

#[test]
fn envelopes_are_written_on_one_line() {
    let success = Response::Success { id: Json::text("a\nb"), result: Json::text("line\nbreak") };
    assert_eq!(encode_response(&success), "{\"id\":\"a\\nb\",\"result\":\"line\\nbreak\"}\n");
    let failure = Response::Failure { id: Json::Null, message: "no".to_string() };
    assert_eq!(encode_response(&failure), "{\"error\":{\"message\":\"no\"},\"id\":null}\n");
    assert_eq!(encode(&Json::empty()), "{}\n");
    assert_eq!(
        encode_request(12, "call_tool", Json::empty()),
        "{\"id\":\"12\",\"method\":\"call_tool\",\"params\":{}}\n"
    );
}

#[test]
fn request_decoding_fills_in_what_is_missing() {
    let request = decode_request(" {\"method\":\"m\"} \r\n").unwrap();
    assert!(matches!(request.id, Json::Null));
    assert_eq!(request.method, "m");
    assert!(matches!(request.params, Json::Object(ref members) if members.is_empty()));
    let error = decode_request("  not json \n").unwrap_err();
    assert_eq!(error.line, "not json");
    assert!(!error.detail.is_empty());
    assert_eq!(error.message(), format!("invalid json: {}", error.detail));
}

#[test]
fn response_decoding_tells_result_from_error() {
    assert_eq!(decode_response("{\"id\":\"1\",\"result\":{\"ok\":true}}\n").map(|r| job_hunter::codec::render(&r)), Ok("{\"ok\":true}".to_string()));
    assert!(matches!(decode_response("{\"id\":\"1\"}"), Ok(Json::Null)));
    assert_eq!(decode_response("{\"error\":{\"message\":\"boom\"}}").unwrap_err(), "boom");
    assert_eq!(decode_response("{\"error\":{}}").unwrap_err(), "unknown mcp error");
    assert_eq!(decode_response("{\"error\":null,\"result\":1}").unwrap_err(), "unknown mcp error");
    assert!(decode_response("").unwrap_err().starts_with("mcp parse: "));
    assert!(matches!(read_result(&Json::Null), Ok(Json::Null)));
}
