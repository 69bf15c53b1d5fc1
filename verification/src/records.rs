//! The record of a scored listing and what a caller hands in to make one.

use crate::json::{
    entries_view, lemma_member_at, option_view, optional_text, push_member, Json, JsonValue,
};
use crate::stamp::{current_timestamp, fresh_identity, IDENTITY_CHARS, TIMESTAMP_CHARS};
use vstd::prelude::*;

verus! {

/// What a caller hands in to have a match recorded. The score is held as
/// the JSON number literal in which it came.
#[derive(Debug)]
pub struct JobMatchInput {
    pub analysis_id: Option<String>,
    pub url: String,
    pub title: Option<String>,
    pub company: Option<String>,
    pub location: Option<String>,
    pub match_score: String,
    pub summary: String,
    pub raw_excerpt: Option<String>,
}

/// A recorded match: the input with the identity and the creation time that
/// the host gave it.
#[derive(Debug)]
pub struct JobMatch {
    pub id: String,
    pub analysis_id: Option<String>,
    pub url: String,
    pub title: Option<String>,
    pub company: Option<String>,
    pub location: Option<String>,
    pub match_score: String,
    pub summary: String,
    pub created_at: String,
    pub raw_excerpt: Option<String>,
}

/// The mathematical model of `JobMatchInput`.
pub struct MatchInputModel {
    pub analysis_id: Option<Seq<char>>,
    pub url: Seq<char>,
    pub title: Option<Seq<char>>,
    pub company: Option<Seq<char>>,
    pub location: Option<Seq<char>>,
    pub match_score: Seq<char>,
    pub summary: Seq<char>,
    pub raw_excerpt: Option<Seq<char>>,
}

/// The mathematical model of `JobMatch`.
pub struct MatchModel {
    pub id: Seq<char>,
    pub created_at: Seq<char>,
    pub input: MatchInputModel,
}

impl View for JobMatchInput {
    type V = MatchInputModel;

    open spec fn view(&self) -> MatchInputModel {
        MatchInputModel {
            analysis_id: option_view(self.analysis_id),
            url: self.url@,
            title: option_view(self.title),
            company: option_view(self.company),
            location: option_view(self.location),
            match_score: self.match_score@,
            summary: self.summary@,
            raw_excerpt: option_view(self.raw_excerpt),
        }
    }
}

impl View for JobMatch {
    type V = MatchModel;

    open spec fn view(&self) -> MatchModel {
        MatchModel {
            id: self.id@,
            created_at: self.created_at@,
            input: MatchInputModel {
                analysis_id: option_view(self.analysis_id),
                url: self.url@,
                title: option_view(self.title),
                company: option_view(self.company),
                location: option_view(self.location),
                match_score: self.match_score@,
                summary: self.summary@,
                raw_excerpt: option_view(self.raw_excerpt),
            },
        }
    }
}

/// The JSON form of a match input.
pub open spec fn match_input_json(m: MatchInputModel) -> JsonValue {
    JsonValue::Object(
        seq![
            ("analysis_id"@, optional_text(m.analysis_id)),
            ("url"@, JsonValue::Text(m.url)),
            ("title"@, optional_text(m.title)),
            ("company"@, optional_text(m.company)),
            ("location"@, optional_text(m.location)),
            ("match_score"@, JsonValue::Number(m.match_score)),
            ("summary"@, JsonValue::Text(m.summary)),
            ("raw_excerpt"@, optional_text(m.raw_excerpt)),
        ],
    )
}

/// The JSON form of a recorded match.
pub open spec fn match_json(m: MatchModel) -> JsonValue {
    JsonValue::Object(
        seq![
            ("id"@, JsonValue::Text(m.id)),
            ("analysis_id"@, optional_text(m.input.analysis_id)),
            ("url"@, JsonValue::Text(m.input.url)),
            ("title"@, optional_text(m.input.title)),
            ("company"@, optional_text(m.input.company)),
            ("location"@, optional_text(m.input.location)),
            ("match_score"@, JsonValue::Number(m.input.match_score)),
            ("summary"@, JsonValue::Text(m.input.summary)),
            ("created_at"@, JsonValue::Text(m.created_at)),
            ("raw_excerpt"@, optional_text(m.input.raw_excerpt)),
        ],
    )
}

/// A member that must be there and be a string.
pub open spec fn required_text(member: Option<JsonValue>) -> Option<Seq<char>> {
    match member {
        Some(JsonValue::Text(t)) => Some(t),
        _ => None,
    }
}

/// A member that must be there and be a number; its literal.
pub open spec fn required_number(member: Option<JsonValue>) -> Option<Seq<char>> {
    match member {
        Some(JsonValue::Number(n)) => Some(n),
        _ => None,
    }
}

/// A member that may be missing or `null`, and is otherwise a string. The
/// outer `None` says that it is none of these.
pub open spec fn optional_member_text(member: Option<JsonValue>) -> Option<Option<Seq<char>>> {
    match member {
        None => Some(None),
        Some(JsonValue::Null) => Some(None),
        Some(JsonValue::Text(t)) => Some(Some(t)),
        Some(_) => None,
    }
}

/// The match input that a JSON document holds: `None` unless `url` and
/// `summary` are strings, `match_score` is a number, and each of the other
/// members is a string, `null` or missing. Members with other names are
/// passed over.
pub open spec fn match_input_of_json(json: JsonValue) -> Option<MatchInputModel> {
    let analysis_id = optional_member_text(json.member("analysis_id"@));
    let url = required_text(json.member("url"@));
    let title = optional_member_text(json.member("title"@));
    let company = optional_member_text(json.member("company"@));
    let location = optional_member_text(json.member("location"@));
    let match_score = required_number(json.member("match_score"@));
    let summary = required_text(json.member("summary"@));
    let raw_excerpt = optional_member_text(json.member("raw_excerpt"@));
    if analysis_id is Some && url is Some && title is Some && company is Some && location is Some
        && match_score is Some && summary is Some && raw_excerpt is Some {
        Some(
            MatchInputModel {
                analysis_id: analysis_id->0,
                url: url->0,
                title: title->0,
                company: company->0,
                location: location->0,
                match_score: match_score->0,
                summary: summary->0,
                raw_excerpt: raw_excerpt->0,
            },
        )
    } else {
        None
    }
}

/// The model of an optional match input.
pub open spec fn option_input_view(input: Option<JobMatchInput>) -> Option<MatchInputModel> {
    match input {
        Some(i) => Some(i@),
        None => None,
    }
}

/// The models of a sequence of recorded matches.
pub open spec fn matches_view(matches: Seq<JobMatch>) -> Seq<MatchModel> {
    Seq::new(matches.len(), |i: int| matches[i]@)
}

/// Reads a member that must be a string.
fn read_text(json: &Json, key: &str) -> (r: Option<String>)
    ensures
        option_view(r) == required_text(json@.member(key@)),
{
    match json.get(key) {
        Some(Json::Text(t)) => Some(t.clone()),
        _ => None,
    }
}

/// Reads a member that may be missing or `null`, and is otherwise a string.
fn read_optional_text(json: &Json, key: &str) -> (r: Option<Option<String>>)
    ensures
        match r {
            Some(text) => optional_member_text(json@.member(key@)) == Some(option_view(text)),
            None => optional_member_text(json@.member(key@)) is None,
        },
{
    match json.get(key) {
        None => Some(None),
        Some(Json::Null) => Some(None),
        Some(Json::Text(t)) => Some(Some(t.clone())),
        Some(_) => None,
    }
}

/// A copy of an optional string.
pub fn clone_optional(text: &Option<String>) -> (r: Option<String>)
    ensures
        option_view(r) == option_view(*text),
{
    match text {
        Some(t) => Some(t.clone()),
        None => None,
    }
}

impl Clone for JobMatchInput {
    fn clone(&self) -> (r: JobMatchInput)
        ensures
            r@ == self@,
    {
        JobMatchInput {
            analysis_id: clone_optional(&self.analysis_id),
            url: self.url.clone(),
            title: clone_optional(&self.title),
            company: clone_optional(&self.company),
            location: clone_optional(&self.location),
            match_score: self.match_score.clone(),
            summary: self.summary.clone(),
            raw_excerpt: clone_optional(&self.raw_excerpt),
        }
    }
}

impl Clone for JobMatch {
    fn clone(&self) -> (r: JobMatch)
        ensures
            r@ == self@,
    {
        JobMatch {
            id: self.id.clone(),
            analysis_id: clone_optional(&self.analysis_id),
            url: self.url.clone(),
            title: clone_optional(&self.title),
            company: clone_optional(&self.company),
            location: clone_optional(&self.location),
            match_score: self.match_score.clone(),
            summary: self.summary.clone(),
            created_at: self.created_at.clone(),
            raw_excerpt: clone_optional(&self.raw_excerpt),
        }
    }
}

impl JobMatchInput {
    /// The JSON form of this input.
    pub fn to_json(&self) -> (r: Json)
        ensures
            r@ == match_input_json(self@),
    {
        let mut entries: Vec<(String, Json)> = Vec::new();
        assert(entries_view(entries@) =~= Seq::empty());
        push_member(&mut entries, "analysis_id", Json::optional(&self.analysis_id));
        push_member(&mut entries, "url", Json::text(self.url.as_str()));
        push_member(&mut entries, "title", Json::optional(&self.title));
        push_member(&mut entries, "company", Json::optional(&self.company));
        push_member(&mut entries, "location", Json::optional(&self.location));
        push_member(&mut entries, "match_score", Json::Number(self.match_score.clone()));
        push_member(&mut entries, "summary", Json::text(self.summary.as_str()));
        push_member(&mut entries, "raw_excerpt", Json::optional(&self.raw_excerpt));
        let r = Json::object(entries);
        assert(r@->Object_0 =~= match_input_json(self@)->Object_0);
        r
    }

    /// Reads a match input from its JSON form; `None` where a member that
    /// must be there is missing or a member has the wrong type.
    pub fn from_json(json: &Json) -> (r: Option<JobMatchInput>)
        ensures
            option_input_view(r) == match_input_of_json(json@),
    {
        let analysis_id = match read_optional_text(json, "analysis_id") {
            Some(text) => text,
            None => { return None; },
        };
        let url = match read_text(json, "url") {
            Some(text) => text,
            None => { return None; },
        };
        let title = match read_optional_text(json, "title") {
            Some(text) => text,
            None => { return None; },
        };
        let company = match read_optional_text(json, "company") {
            Some(text) => text,
            None => { return None; },
        };
        let location = match read_optional_text(json, "location") {
            Some(text) => text,
            None => { return None; },
        };
        let match_score = match json.get("match_score") {
            Some(Json::Number(n)) => n.clone(),
            _ => { return None; },
        };
        let summary = match read_text(json, "summary") {
            Some(text) => text,
            None => { return None; },
        };
        let raw_excerpt = match read_optional_text(json, "raw_excerpt") {
            Some(text) => text,
            None => { return None; },
        };
        Some(
            JobMatchInput {
                analysis_id,
                url,
                title,
                company,
                location,
                match_score,
                summary,
                raw_excerpt,
            },
        )
    }
}

impl JobMatch {
    /// The record of `input` under the identity `id`, created at
    /// `created_at`.
    pub fn from_input(input: JobMatchInput, id: String, created_at: String) -> (r: JobMatch)
        ensures
            r@ == (MatchModel { id: id@, created_at: created_at@, input: input@ }),
    {
        JobMatch {
            id,
            analysis_id: input.analysis_id,
            url: input.url,
            title: input.title,
            company: input.company,
            location: input.location,
            match_score: input.match_score,
            summary: input.summary,
            created_at,
            raw_excerpt: input.raw_excerpt,
        }
    }

    /// The record of `input` under a fresh identity, created now. Whatever
    /// the identity and the time, they have the length of their forms and
    /// the input is carried over unchanged.
    pub fn new(input: JobMatchInput) -> (r: JobMatch)
        ensures
            r@.input == input@,
            r@.id.len() == IDENTITY_CHARS,
            r@.created_at.len() >= TIMESTAMP_CHARS,
    {
        let id = fresh_identity();
        let created_at = current_timestamp();
        JobMatch::from_input(input, id, created_at)
    }

    /// The JSON form of this record.
    pub fn to_json(&self) -> (r: Json)
        ensures
            r@ == match_json(self@),
    {
        let mut entries: Vec<(String, Json)> = Vec::new();
        assert(entries_view(entries@) =~= Seq::empty());
        push_member(&mut entries, "id", Json::text(self.id.as_str()));
        push_member(&mut entries, "analysis_id", Json::optional(&self.analysis_id));
        push_member(&mut entries, "url", Json::text(self.url.as_str()));
        push_member(&mut entries, "title", Json::optional(&self.title));
        push_member(&mut entries, "company", Json::optional(&self.company));
        push_member(&mut entries, "location", Json::optional(&self.location));
        push_member(&mut entries, "match_score", Json::Number(self.match_score.clone()));
        push_member(&mut entries, "summary", Json::text(self.summary.as_str()));
        push_member(&mut entries, "created_at", Json::text(self.created_at.as_str()));
        push_member(&mut entries, "raw_excerpt", Json::optional(&self.raw_excerpt));
        let r = Json::object(entries);
        assert(r@->Object_0 =~= match_json(self@)->Object_0);
        r
    }
}

/// A match input written to JSON and read back is the input that was
/// written.
pub proof fn lemma_match_input_round_trip(m: MatchInputModel)
    ensures
        match_input_of_json(match_input_json(m)) == Some(m),
{
    reveal_strlit("analysis_id");
    reveal_strlit("url");
    reveal_strlit("title");
    reveal_strlit("company");
    reveal_strlit("location");
    reveal_strlit("match_score");
    reveal_strlit("summary");
    reveal_strlit("raw_excerpt");
    let entries = match_input_json(m)->Object_0;
    assert(entries[0].0.len() == 11);
    assert(entries[1].0.len() == 3);
    assert(entries[2].0.len() == 5);
    assert(entries[3].0.len() == 7);
    assert(entries[4].0.len() == 8);
    assert(entries[5].0.len() == 11);
    assert(entries[6].0.len() == 7);
    assert(entries[7].0.len() == 11);
    assert("analysis_id"@[0] != "match_score"@[0]);
    assert("analysis_id"@[0] != "raw_excerpt"@[0]);
    assert("match_score"@[0] != "raw_excerpt"@[0]);
    assert("company"@[0] != "summary"@[0]);
    lemma_member_at(entries, 0);
    lemma_member_at(entries, 1);
    lemma_member_at(entries, 2);
    lemma_member_at(entries, 3);
    lemma_member_at(entries, 4);
    lemma_member_at(entries, 5);
    lemma_member_at(entries, 6);
    lemma_member_at(entries, 7);
}

} // verus!
