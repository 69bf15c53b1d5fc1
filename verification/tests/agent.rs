use job_hunter::agent::{
    analyse, parse_port, read_config, settings_from_answer, Worker, WorkerAction, WorkerConfig,
    WorkerEvent, WorkerStage,
};
use job_hunter::codec::parse;
use job_hunter::json::Json;
use job_hunter::settings::JobSettings;

fn config() -> WorkerConfig {
    WorkerConfig { port: 4000, url: "http://x/job".to_string(), analysis_id: Some("an-1".to_string()) }
}

fn sent(action: WorkerAction) -> Json {
    match action {
        WorkerAction::Send(line) => {
            assert!(line.ends_with('\n'));
            assert_eq!(line.matches('\n').count(), 1);
            parse(&line).unwrap()
        }
        other => panic!("unexpected {:?}", other),
    }
}

fn answer(worker: Worker, line: &str) -> (Worker, WorkerAction) {
    worker.on_event(WorkerEvent::Response(line.to_string()))
}

fn called(request: &Json) -> (String, Json) {
    assert_eq!(request.get("method").unwrap().as_str(), Some("call_tool"));
    let params = request.get("params").unwrap();
    (params.get("name").unwrap().as_str().unwrap().to_string(), params.get("arguments").unwrap().clone())
}

const PAGE: &str = "{\"id\":\"3\",\"result\":{\"status\":200,\"url\":\"http://x/job\",\"title\":\"Senior Backend Engineer - Acme Corp\",\"html\":\"<html><body><p>hi</p></body></html>\",\"text\":\"We use Rust. Location: Remote, USA\"}}";

#[test]
fn port_is_read_as_std_reads_it() {
    assert_eq!(parse_port("4000"), Ok(4000));
    assert_eq!(parse_port("+80"), Ok(80));
    assert_eq!(parse_port("0065535"), Ok(65535));
    assert_eq!(parse_port("0"), Ok(0));
    assert_eq!(parse_port("65536").unwrap_err(), "number too large to fit in target type");
    assert_eq!(parse_port("99999999999999999999999").unwrap_err(), "number too large to fit in target type");
    assert_eq!(parse_port("").unwrap_err(), "cannot parse integer from empty string");
    assert_eq!(parse_port("+").unwrap_err(), "invalid digit found in string");
    assert_eq!(parse_port("-1").unwrap_err(), "invalid digit found in string");
    assert_eq!(parse_port(" 80").unwrap_err(), "invalid digit found in string");
    assert_eq!(parse_port("8o").unwrap_err(), "invalid digit found in string");
    for text in ["4000", "+80", "65536", "", "+", "-1", "12a", "99999999999999999999999"] {
        assert_eq!(parse_port(text), text.parse::<u16>().map_err(|e| e.to_string()), "{:?}", text);
    }
}

#[test]
fn configuration_names_what_is_missing() {
    let some = |s: &str| Some(s.to_string());
    assert_eq!(read_config(None, some("u"), None).unwrap_err(), "missing JOB_HUNTER_MCP_PORT");
    assert_eq!(read_config(some("x"), None, None).unwrap_err(), "invalid port: invalid digit found in string");
    assert_eq!(read_config(some("1"), None, some("a")).unwrap_err(), "missing JOB_HUNTER_TARGET_URL");
    let c = read_config(some("8080"), some("http://u"), None).unwrap();
    assert_eq!(c.port, 8080);
    assert_eq!(c.url, "http://u");
    assert_eq!(c.analysis_id, None);
}

#[test]
fn workflow_runs_its_six_requests_in_order() {
    let (worker, action) = Worker::start(config());
    let first = sent(action);
    assert_eq!(first.get("id").unwrap().as_str(), Some("1"));
    assert_eq!(first.get("method").unwrap().as_str(), Some("initialize"));
    assert!(matches!(worker.stage, WorkerStage::Initializing));

    let (worker, action) = answer(worker, "{\"id\":\"1\",\"result\":{}}\n");
    let request = sent(action);
    assert_eq!(request.get("id").unwrap().as_str(), Some("2"));
    assert_eq!(called(&request).0, "get_settings");

    let settings = "{\"id\":\"2\",\"result\":{\"settings\":{\"preferredTitles\":[\"backend\"],\"locations\":[\"usa\"],\"keywords\":[\"Rust\",\"React\"],\"remoteOnly\":true,\"companyBlacklist\":[]}}}";
    let (worker, action) = answer(worker, settings);
    let request = sent(action);
    assert_eq!(request.get("id").unwrap().as_str(), Some("3"));
    let (name, arguments) = called(&request);
    assert_eq!(name, "fetch_content");
    assert_eq!(arguments.get("url").unwrap().as_str(), Some("http://x/job"));
    assert_eq!(arguments.get("maxLength").unwrap().as_u64(), Some(120_000));

    let (worker, action) = answer(worker, PAGE);
    let request = sent(action);
    assert_eq!(request.get("id").unwrap().as_str(), Some("4"));
    let (name, arguments) = called(&request);
    assert_eq!(name, "save_job_match");
    assert_eq!(arguments.get("analysis_id").unwrap().as_str(), Some("an-1"));
    assert_eq!(arguments.get("url").unwrap().as_str(), Some("http://x/job"));
    assert_eq!(arguments.get("title").unwrap().as_str(), Some("Senior Backend Engineer - Acme Corp"));
    assert_eq!(arguments.get("company").unwrap().as_str(), Some("Acme Corp"));
    assert_eq!(arguments.get("location").unwrap().as_str(), Some("Remote, USA"));
    // 1 of 2 keywords: 50; title +10, location +6, remote +8.
    assert!(matches!(arguments.get("match_score"), Some(Json::Number(n)) if n == "74.0"));
    assert_eq!(
        arguments.get("summary").unwrap().as_str(),
        Some("Matched 74% of keywords. Remote preference: on. Title signal: Senior Backend Engineer - Acme Corp.")
    );
    assert_eq!(arguments.get("raw_excerpt").unwrap().as_str(), Some("We use Rust. Location: Remote, USA"));

    let (worker, action) = answer(worker, "{\"id\":\"4\",\"error\":{\"message\":\"insert job match: full\"}}");
    let request = sent(action);
    assert_eq!(request.get("id").unwrap().as_str(), Some("5"));
    let (name, arguments) = called(&request);
    assert_eq!(name, "set_query_params");
    assert_eq!(arguments.get("url").unwrap().as_str(), Some("http://x/job"));
    assert_eq!(arguments.get("analysisId").unwrap().as_str(), Some("an-1"));

    let (worker, action) = answer(worker, "not even json");
    let request = sent(action);
    assert_eq!(request.get("id").unwrap().as_str(), Some("6"));
    assert_eq!(called(&request).0, "reload_page");

    let (worker, action) = answer(worker, "{\"id\":\"6\",\"error\":{\"message\":\"x\"}}");
    assert!(matches!(action, WorkerAction::Finish(Ok(()))));
    assert!(matches!(worker.stage, WorkerStage::Finished));
    assert_eq!(worker.next_id, 7);

    let (_, action) = answer(worker, "{}");
    assert!(matches!(action, WorkerAction::Finish(Err(m)) if m == "unexpected event"));
}

#[test]
fn failed_initialize_ends_the_run() {
    let (worker, _) = Worker::start(config());
    let (worker, action) = answer(worker, "{\"id\":\"1\",\"error\":{\"message\":\"nope\"}}");
    assert!(matches!(action, WorkerAction::Finish(Err(m)) if m == "nope"));
    assert!(matches!(worker.stage, WorkerStage::Finished));
    let (worker, _) = Worker::start(config());
    let (_, action) = answer(worker, "garbage");
    assert!(matches!(action, WorkerAction::Finish(Err(m)) if m.starts_with("mcp parse: ")));
}

#[test]
fn failed_settings_fall_back_on_the_defaults() {
    for reply in ["{\"error\":{\"message\":\"store load: x\"}}", "{\"result\":{}}", "{\"result\":{\"settings\":{\"keywords\":5}}}", "###"] {
        let (worker, _) = Worker::start(config());
        let (worker, _) = answer(worker, "{\"result\":{}}");
        let (worker, action) = answer(worker, reply);
        assert_eq!(called(&sent(action)).0, "fetch_content");
        match worker.stage {
            WorkerStage::FetchingContent { settings } => {
                assert_eq!(settings.keywords, JobSettings::default().keywords);
                assert!(settings.remote_only);
            }
            other => panic!("unexpected {:?}", other),
        }
    }
}

#[test]
fn failed_fetch_ends_the_run() {
    let (worker, _) = Worker::start(config());
    let (worker, _) = answer(worker, "{\"result\":{}}");
    let (worker, _) = answer(worker, "{\"result\":{}}");
    let (_, action) = answer(worker, "{\"error\":{\"message\":\"http fetch: refused\"}}");
    assert!(matches!(action, WorkerAction::Finish(Err(m)) if m == "http fetch: refused"));
}

#[test]
fn transport_failure_ends_the_run_at_any_stage() {
    let (worker, _) = Worker::start(config());
    let (_, action) = worker.on_event(WorkerEvent::WriteFailed("pipe".to_string()));
    assert!(matches!(action, WorkerAction::Finish(Err(m)) if m == "mcp write: pipe"));
    let (worker, _) = Worker::start(config());
    let (worker, _) = answer(worker, "{\"result\":{}}");
    let (_, action) = worker.on_event(WorkerEvent::FlushFailed("full".to_string()));
    assert!(matches!(action, WorkerAction::Finish(Err(m)) if m == "mcp flush: full"));
    let (worker, _) = Worker::start(config());
    let (worker, _) = answer(worker, "{\"result\":{}}");
    let (worker, _) = answer(worker, "{\"result\":{}}");
    let (worker, _) = answer(worker, PAGE);
    let (worker, action) = worker.on_event(WorkerEvent::ReadFailed("timed out".to_string()));
    assert!(matches!(action, WorkerAction::Finish(Err(m)) if m == "mcp read: timed out"));
    assert!(matches!(worker.stage, WorkerStage::Finished));
}

#[test]
fn missing_page_fields_count_as_empty() {
    let input = analyse("u", &None, &parse("{\"html\":5}").unwrap(), &JobSettings::default());
    assert_eq!(input.title, None);
    assert_eq!(input.company, None);
    assert_eq!(input.location, None);
    assert_eq!(input.raw_excerpt, None);
    assert_eq!(input.analysis_id, None);
    assert_eq!(input.url, "u");
    assert_eq!(input.match_score, "0.000000");
    assert_eq!(input.summary, "Matched 0% of keywords. Remote preference: on. Title signal: unknown.");
}

#[test]
fn settings_come_from_the_settings_member() {
    let stored = parse("{\"settings\":{\"preferredTitles\":[],\"locations\":[],\"keywords\":[\"k\"],\"remoteOnly\":false,\"companyBlacklist\":[]}}").unwrap();
    let s = settings_from_answer(&Ok(stored));
    assert_eq!(s.keywords, vec!["k"]);
    assert!(!s.remote_only);
    let s = settings_from_answer(&Err("x".to_string()));
    assert_eq!(s.keywords.len(), 6);
}
