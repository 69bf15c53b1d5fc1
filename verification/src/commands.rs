//! What the host hands back when an analysis has been started.

use crate::json::{entries_view, push_member, Json, JsonValue};
use crate::stamp::{fresh_identity, IDENTITY_CHARS};
use crate::text::{decimal, decimal_text};
use crate::tools::{Notification, NotificationModel};
use vstd::prelude::*;

verus! {

/// The identity of a started analysis and the port of the server that its
/// worker talks to.
#[derive(Debug)]
pub struct AnalysisStart {
    pub analysis_id: String,
    pub mcp_port: u16,
}

/// The JSON form of a started analysis, its members named in camel case.
pub open spec fn analysis_start_json(analysis_id: Seq<char>, mcp_port: u16) -> JsonValue {
    JsonValue::Object(
        seq![
            ("analysisId"@, JsonValue::Text(analysis_id)),
            ("mcpPort"@, JsonValue::Number(decimal(mcp_port as nat))),
        ],
    )
}

/// What the worker of an analysis is started with: the argument that
/// selects the worker, and the variables of its environment.
#[derive(Debug)]
pub struct WorkerLaunch {
    pub argument: String,
    pub variables: Vec<(String, String)>,
}

/// The variables that a worker is started with: the port of the server,
/// the address of the page and the identity of the analysis.
pub open spec fn launch_variables(port: u16, url: Seq<char>, analysis_id: Seq<char>) -> Seq<
    (Seq<char>, Seq<char>),
> {
    seq![
        ("JOB_HUNTER_MCP_PORT"@, decimal(port as nat)),
        ("JOB_HUNTER_TARGET_URL"@, url),
        ("JOB_HUNTER_ANALYSIS_ID"@, analysis_id),
    ]
}

/// The models of a sequence of variables.
pub open spec fn variables_view(variables: Seq<(String, String)>) -> Seq<(Seq<char>, Seq<char>)> {
    Seq::new(variables.len(), |i: int| (variables[i].0@, variables[i].1@))
}

/// The event that tells the user interface of a started analysis.
pub open spec fn started_event(analysis_id: Seq<char>, mcp_port: u16) -> NotificationModel {
    NotificationModel {
        event: "analysis:started"@,
        payload: analysis_start_json(analysis_id, mcp_port),
    }
}

impl AnalysisStart {
    /// A started analysis under a fresh identity. Whatever the identity,
    /// it has the length of its form, and the port is the one given.
    pub fn new(mcp_port: u16) -> (r: AnalysisStart)
        ensures
            r.mcp_port == mcp_port,
            r.analysis_id@.len() == IDENTITY_CHARS,
    {
        AnalysisStart { analysis_id: fresh_identity(), mcp_port }
    }

    /// What the worker of this analysis is started with to work on the page
    /// at `url`.
    pub fn launch(&self, url: &str) -> (r: WorkerLaunch)
        ensures
            r.argument@ == "--analysis-agent"@,
            variables_view(r.variables@) == launch_variables(
                self.mcp_port,
                url@,
                self.analysis_id@,
            ),
    {
        let variables: Vec<(String, String)> = vec![
            ("JOB_HUNTER_MCP_PORT".to_owned(), decimal_text(self.mcp_port as u64)),
            ("JOB_HUNTER_TARGET_URL".to_owned(), url.to_owned()),
            ("JOB_HUNTER_ANALYSIS_ID".to_owned(), self.analysis_id.clone()),
        ];
        assert(variables_view(variables@) =~= launch_variables(
            self.mcp_port,
            url@,
            self.analysis_id@,
        ));
        WorkerLaunch { argument: "--analysis-agent".to_owned(), variables }
    }

    /// The event that tells the user interface of this analysis.
    pub fn started(&self) -> (r: Notification)
        ensures
            r@ == started_event(self.analysis_id@, self.mcp_port),
    {
        Notification { event: "analysis:started".to_owned(), payload: self.to_json() }
    }

    /// The JSON form, which is also what the "analysis started" event
    /// carries.
    pub fn to_json(&self) -> (r: Json)
        ensures
            r@ == analysis_start_json(self.analysis_id@, self.mcp_port),
    {
        let mut entries: Vec<(String, Json)> = Vec::new();
        assert(entries_view(entries@) =~= Seq::empty());
        push_member(&mut entries, "analysisId", Json::text(self.analysis_id.as_str()));
        push_member(&mut entries, "mcpPort", Json::unsigned(self.mcp_port as u64));
        let r = Json::object(entries);
        assert(r@->Object_0 =~= analysis_start_json(self.analysis_id@, self.mcp_port)->Object_0);
        r
    }
}

} // verus!
