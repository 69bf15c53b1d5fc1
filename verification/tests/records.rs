use job_hunter::codec::{parse, render};
use job_hunter::commands::AnalysisStart;
use job_hunter::records::{clone_optional, JobMatch, JobMatchInput};

fn input() -> JobMatchInput {
    JobMatchInput {
        analysis_id: Some("a-1".to_string()),
        url: "https://example.com/job".to_string(),
        title: Some("Dev".to_string()),
        company: None,
        location: Some("Remote".to_string()),
        match_score: "58.000000".to_string(),
        summary: "fine".to_string(),
        raw_excerpt: None,
    }
}

#[test]
fn match_input_is_written_member_by_member() {
    assert_eq!(
        render(&input().to_json()),
        "{\"analysis_id\":\"a-1\",\"company\":null,\"location\":\"Remote\",\"match_score\":58.0,\
         \"raw_excerpt\":null,\"summary\":\"fine\",\"title\":\"Dev\",\"url\":\"https://example.com/job\"}"
    );
}

#[test]
fn match_input_round_trips() {
    let back = JobMatchInput::from_json(&input().to_json()).unwrap();
    assert_eq!(back.analysis_id, input().analysis_id);
    assert_eq!(back.url, input().url);
    assert_eq!(back.title, input().title);
    assert_eq!(back.company, None);
    assert_eq!(back.location, input().location);
    assert_eq!(back.match_score, "58.000000");
    assert_eq!(back.summary, "fine");
    assert_eq!(back.raw_excerpt, None);
}

#[test]
fn match_input_needs_url_summary_and_score() {
    let ok = parse("{\"url\":\"u\",\"summary\":\"s\",\"match_score\":12.5,\"extra\":1}").unwrap();
    let read = JobMatchInput::from_json(&ok).unwrap();
    assert_eq!(read.match_score, "12.5");
    assert_eq!(read.analysis_id, None);
    for text in [
        "{\"summary\":\"s\",\"match_score\":1}",
        "{\"url\":\"u\",\"match_score\":1}",
        "{\"url\":\"u\",\"summary\":\"s\"}",
        "{\"url\":1,\"summary\":\"s\",\"match_score\":1}",
        "{\"url\":\"u\",\"summary\":\"s\",\"match_score\":\"1\"}",
        "{\"url\":\"u\",\"summary\":\"s\",\"match_score\":1,\"title\":5}",
        "{\"url\":\"u\",\"summary\":\"s\",\"match_score\":1,\"analysis_id\":[]}",
        "[]",
    ] {
        assert!(JobMatchInput::from_json(&parse(text).unwrap()).is_none(), "{}", text);
    }
}

#[test]
fn record_carries_the_input_and_its_stamp() {
    let record = JobMatch::from_input(input(), "id-7".to_string(), "2024-01-01T00:00:00+00:00".to_string());
    assert_eq!(record.id, "id-7");
    assert_eq!(record.created_at, "2024-01-01T00:00:00+00:00");
    assert_eq!(record.url, "https://example.com/job");
    assert_eq!(record.match_score, "58.000000");
    assert_eq!(
        render(&record.to_json()),
        "{\"analysis_id\":\"a-1\",\"company\":null,\"created_at\":\"2024-01-01T00:00:00+00:00\",\
         \"id\":\"id-7\",\"location\":\"Remote\",\"match_score\":58.0,\"raw_excerpt\":null,\
         \"summary\":\"fine\",\"title\":\"Dev\",\"url\":\"https://example.com/job\"}"
    );
    let copy = record.clone();
    assert_eq!(copy.id, record.id);
    assert_eq!(copy.summary, record.summary);
}

#[test]
fn new_record_gets_a_fresh_identity_and_the_time() {
    let a = JobMatch::new(input());
    let b = JobMatch::new(input());
    assert_ne!(a.id, b.id);
    assert_eq!(a.id.chars().count(), 36);
    assert_eq!(a.id.matches('-').count(), 4);
    assert!(a.created_at.chars().count() >= 25);
    assert!(a.created_at.ends_with("+00:00"));
    assert_eq!(&a.created_at[4..5], "-");
    assert!(a.created_at.contains('T'));
    assert_eq!(a.url, input().url);
    assert_eq!(a.title, input().title);
    assert_eq!(a.analysis_id, input().analysis_id);
}

#[test]
fn optional_strings_are_copied() {
    assert_eq!(clone_optional(&Some("x".to_string())), Some("x".to_string()));
    assert_eq!(clone_optional(&None), None);
}

#[test]
fn new_analysis_gets_a_fresh_identity() {
    let a = AnalysisStart::new(4711);
    let b = AnalysisStart::new(4711);
    assert_eq!(a.mcp_port, 4711);
    assert_eq!(a.analysis_id.chars().count(), 36);
    assert_ne!(a.analysis_id, b.analysis_id);
    let launch = a.launch("http://x");
    assert_eq!(launch.argument, "--analysis-agent");
    assert_eq!(
        launch.variables,
        vec![
            ("JOB_HUNTER_MCP_PORT".to_string(), "4711".to_string()),
            ("JOB_HUNTER_TARGET_URL".to_string(), "http://x".to_string()),
            ("JOB_HUNTER_ANALYSIS_ID".to_string(), a.analysis_id.clone()),
        ]
    );
    assert_eq!(a.started().event, "analysis:started");
}

#[test]
fn analysis_start_is_written_in_camel_case() {
    let start = AnalysisStart { analysis_id: "abc".to_string(), mcp_port: 4711 };
    assert_eq!(render(&start.to_json()), "{\"analysisId\":\"abc\",\"mcpPort\":4711}");
}
