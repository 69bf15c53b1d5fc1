use job_hunter::agent::{Worker, WorkerAction, WorkerConfig, WorkerEvent};
use job_hunter::codec::parse;
use job_hunter::json::Json;
use job_hunter::server::{advance, ConnectionAction, ConnectionEvent, ConnectionState};
use job_hunter::tools::{ToolCall, ToolOutcome};

/// Plays the host for one request line: stands in for the work behind a
/// call and hands back the response line and the name of the event, if any.
fn serve(state: ConnectionState, line: String, saved: &mut Vec<String>) -> (ConnectionState, String, Option<String>) {
    let (state, action) = advance(state, ConnectionEvent::Line(line));
    let (state, action) = match action {
        ConnectionAction::RunTool => {
            let outcome = match &state {
                ConnectionState::Dispatching { call, .. } => match call {
                    ToolCall::GetSettings => ToolOutcome::Settings(None),
                    ToolCall::FetchContent { url, max_length } => {
                        assert_eq!(url, "http://jobs.test/42");
                        assert_eq!(*max_length, 120_000);
                        ToolOutcome::Page {
                            status: 200,
                            body: "<html><head><title>Rust Engineer | Globex</title>\
                                   <meta property=\"og:site_name\" content=\"Globex Careers\"></head>\
                                   <body><h1>Backend Engineer</h1>\
                                   <p>TypeScript, React and Rust.\nLocation: Remote\n</p></body></html>"
                                .to_string(),
                        }
                    }
                    ToolCall::SaveJobMatch { record } => {
                        saved.push(record.id.clone());
                        assert_eq!(record.title.as_deref(), Some("Backend Engineer"));
                        assert_eq!(record.company.as_deref(), Some("Globex Careers"));
                        assert_eq!(record.location.as_deref(), Some("Remote"));
                        // 3 of the 6 built-in keywords: 50; title +10, location +6, remote +8.
                        assert_eq!(record.match_score, "74.0");
                        ToolOutcome::Done
                    }
                    ToolCall::SetQueryParams { .. } | ToolCall::ReloadPage => ToolOutcome::Done,
                    other => panic!("unexpected {:?}", other),
                },
                other => panic!("unexpected {:?}", other),
            };
            advance(state, ConnectionEvent::ToolFinished(outcome))
        }
        action => (state, action),
    };
    match action {
        ConnectionAction::WriteLine { line, notification } => {
            let (state, action) = advance(state, ConnectionEvent::Written);
            assert!(matches!(action, ConnectionAction::ReadLine));
            (state, line, notification.map(|n| n.event))
        }
        other => panic!("unexpected {:?}", other),
    }
}

#[test]
fn worker_and_host_carry_an_analysis_through() {
    let config = WorkerConfig {
        port: 1,
        url: "http://jobs.test/42".to_string(),
        analysis_id: Some("run-1".to_string()),
    };
    let (mut worker, mut action) = Worker::start(config);
    let mut state = ConnectionState::AwaitingLine;
    let mut saved = Vec::new();
    let mut events = Vec::new();
    let mut requests = 0;
    loop {
        let request = match action {
            WorkerAction::Send(line) => line,
            WorkerAction::Finish(result) => {
                assert_eq!(result, Ok(()));
                break;
            }
        };
        requests += 1;
        let sent_id = parse(&request).unwrap().get("id").unwrap().as_str().unwrap().to_string();
        assert_eq!(sent_id, requests.to_string());
        let (next, response, event) = serve(state, request, &mut saved);
        state = next;
        events.extend(event);
        let echoed = parse(&response).unwrap();
        assert_eq!(echoed.get("id").unwrap().as_str(), Some(sent_id.as_str()));
        assert!(echoed.get("error").is_none());
        assert!(worker.is_consistent());
        (worker, action) = worker.on_event(WorkerEvent::Response(response));
    }
    assert_eq!(requests, 6);
    assert_eq!(saved.len(), 1);
    assert_eq!(events, vec!["analysis:completed", "mcp:set-query-params", "mcp:reload"]);
    assert!(matches!(state, ConnectionState::AwaitingLine));
}

#[test]
fn answers_keep_the_order_of_the_requests() {
    let mut state = ConnectionState::AwaitingLine;
    let mut saved = Vec::new();
    for id in 0..20u32 {
        let method = if id % 3 == 0 { "initialize" } else if id % 3 == 1 { "list_tools" } else { "nonsense" };
        let line = format!("{{\"id\":{},\"method\":\"{}\"}}\n", id, method);
        let (next, response, _) = serve(state, line, &mut saved);
        state = next;
        assert_eq!(parse(&response).unwrap().get("id").unwrap().as_u64(), Some(id as u64));
    }
    let (_, response, _) = serve(state, "][".to_string(), &mut saved);
    assert!(matches!(parse(&response).unwrap().get("id"), Some(Json::Null)));
}
