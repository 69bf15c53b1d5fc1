//! The user's job-search settings and their JSON form.

use crate::json::{
    entries_view, lemma_member_at, lemma_text_array_round_trip, lookup, push_member, text_array, Json,
    JsonValue,
};
use crate::text::{lemma_signed_round_trip, signed_decimal, strings_view};
use vstd::prelude::*;

verus! {

/// What a listing is matched against. The lists are searched for members;
/// their order carries no meaning.
#[derive(Debug)]
pub struct JobSettings {
    pub preferred_titles: Vec<String>,
    pub locations: Vec<String>,
    pub keywords: Vec<String>,
    pub remote_only: bool,
    pub salary_min: Option<i64>,
    pub salary_max: Option<i64>,
    pub company_blacklist: Vec<String>,
}

/// The mathematical model of `JobSettings`.
pub struct SettingsModel {
    pub preferred_titles: Seq<Seq<char>>,
    pub locations: Seq<Seq<char>>,
    pub keywords: Seq<Seq<char>>,
    pub remote_only: bool,
    pub salary_min: Option<i64>,
    pub salary_max: Option<i64>,
    pub company_blacklist: Seq<Seq<char>>,
}

impl View for JobSettings {
    type V = SettingsModel;

    open spec fn view(&self) -> SettingsModel {
        SettingsModel {
            preferred_titles: strings_view(self.preferred_titles@),
            locations: strings_view(self.locations@),
            keywords: strings_view(self.keywords@),
            remote_only: self.remote_only,
            salary_min: self.salary_min,
            salary_max: self.salary_max,
            company_blacklist: strings_view(self.company_blacklist@),
        }
    }
}

/// The settings that stand in where none are stored.
pub open spec fn default_settings() -> SettingsModel {
    SettingsModel {
        preferred_titles: seq![
            "Software Engineer"@,
            "Full Stack Engineer"@,
            "Frontend Engineer"@,
            "Backend Engineer"@,
        ],
        locations: seq!["Remote"@, "United States"@],
        keywords: seq!["TypeScript"@, "React"@, "Node.js"@, "Rust"@, "Tauri"@, "Next.js"@],
        remote_only: true,
        salary_min: Some(120_000i64),
        salary_max: Some(200_000i64),
        company_blacklist: Seq::empty(),
    }
}

/// The JSON form of an optional whole number: the number, or `null`.
pub open spec fn optional_number(n: Option<i64>) -> JsonValue {
    match n {
        Some(n) => JsonValue::Number(signed_decimal(n as int)),
        None => JsonValue::Null,
    }
}

/// The JSON form of settings: one object, its members named in camel case.
pub open spec fn settings_json(s: SettingsModel) -> JsonValue {
    JsonValue::Object(
        seq![
            ("preferredTitles"@, text_array(s.preferred_titles)),
            ("locations"@, text_array(s.locations)),
            ("keywords"@, text_array(s.keywords)),
            ("remoteOnly"@, JsonValue::Bool(s.remote_only)),
            ("salaryMin"@, optional_number(s.salary_min)),
            ("salaryMax"@, optional_number(s.salary_max)),
            ("companyBlacklist"@, text_array(s.company_blacklist)),
        ],
    )
}

/// A member that must be there and be an array of strings.
pub open spec fn required_list(member: Option<JsonValue>) -> Option<Seq<Seq<char>>> {
    match member {
        Some(value) => value.text_list(),
        None => None,
    }
}

/// A member that must be there and be a truth value.
pub open spec fn required_bool(member: Option<JsonValue>) -> Option<bool> {
    match member {
        Some(value) => value.boolean(),
        None => None,
    }
}

/// A member that may be missing or `null`, and is otherwise a whole number
/// that fits `i64`. The outer `None` says that it is none of these.
pub open spec fn optional_integer(member: Option<JsonValue>) -> Option<Option<i64>> {
    match member {
        None => Some(None),
        Some(JsonValue::Null) => Some(None),
        Some(value) => match value.signed() {
            Some(n) => Some(Some(n)),
            None => None,
        },
    }
}

/// The settings that a JSON document holds: `None` unless every list and the
/// flag are there with the right type and each salary bound is a whole
/// number, `null` or missing. Members with other names are passed over.
pub open spec fn settings_of_json(json: JsonValue) -> Option<SettingsModel> {
    let preferred_titles = required_list(json.member("preferredTitles"@));
    let locations = required_list(json.member("locations"@));
    let keywords = required_list(json.member("keywords"@));
    let remote_only = required_bool(json.member("remoteOnly"@));
    let salary_min = optional_integer(json.member("salaryMin"@));
    let salary_max = optional_integer(json.member("salaryMax"@));
    let company_blacklist = required_list(json.member("companyBlacklist"@));
    if preferred_titles is Some && locations is Some && keywords is Some && remote_only is Some
        && salary_min is Some && salary_max is Some && company_blacklist is Some {
        Some(
            SettingsModel {
                preferred_titles: preferred_titles->0,
                locations: locations->0,
                keywords: keywords->0,
                remote_only: remote_only->0,
                salary_min: salary_min->0,
                salary_max: salary_max->0,
                company_blacklist: company_blacklist->0,
            },
        )
    } else {
        None
    }
}

/// The model of optional settings.
pub open spec fn option_settings_view(settings: Option<JobSettings>) -> Option<SettingsModel> {
    match settings {
        Some(s) => Some(s@),
        None => None,
    }
}

/// A copy of a list of strings.
pub fn clone_strings(strings: &Vec<String>) -> (r: Vec<String>)
    ensures
        strings_view(r@) == strings_view(strings@),
{
    let mut out: Vec<String> = Vec::new();
    let mut i: usize = 0;
    while i < strings.len()
        invariant
            i <= strings@.len(),
            out@.len() == i,
            forall|k: int| 0 <= k < i ==> (#[trigger] out@[k])@ == strings@[k]@,
        decreases strings@.len() - i,
    {
        out.push(strings[i].clone());
        i += 1;
    }
    assert(strings_view(out@) =~= strings_view(strings@));
    out
}

/// The JSON form of an optional whole number.
fn optional_number_json(n: Option<i64>) -> (r: Json)
    ensures
        r@ == optional_number(n),
{
    match n {
        Some(n) => Json::signed(n),
        None => Json::Null,
    }
}

/// Reads a member that must be an array of strings.
fn read_list(json: &Json, key: &str) -> (r: Option<Vec<String>>)
    ensures
        match r {
            Some(texts) => required_list(json@.member(key@)) == Some(strings_view(texts@)),
            None => required_list(json@.member(key@)) is None,
        },
{
    match json.get(key) {
        Some(value) => value.as_text_list(),
        None => None,
    }
}

/// Reads a member that may be missing or `null`, and is otherwise a whole
/// number.
fn read_optional_integer(json: &Json, key: &str) -> (r: Option<Option<i64>>)
    ensures
        r == optional_integer(json@.member(key@)),
{
    match json.get(key) {
        None => Some(None),
        Some(Json::Null) => Some(None),
        Some(value) => match value.as_i64() {
            Some(n) => Some(Some(n)),
            None => None,
        },
    }
}

impl Clone for JobSettings {
    fn clone(&self) -> (r: JobSettings)
        ensures
            r@ == self@,
    {
        JobSettings {
            preferred_titles: clone_strings(&self.preferred_titles),
            locations: clone_strings(&self.locations),
            keywords: clone_strings(&self.keywords),
            remote_only: self.remote_only,
            salary_min: self.salary_min,
            salary_max: self.salary_max,
            company_blacklist: clone_strings(&self.company_blacklist),
        }
    }
}

impl Default for JobSettings {
    fn default() -> (r: JobSettings)
        ensures
            r@ == default_settings(),
    {
        let preferred_titles: Vec<String> = vec![
            "Software Engineer".to_owned(),
            "Full Stack Engineer".to_owned(),
            "Frontend Engineer".to_owned(),
            "Backend Engineer".to_owned(),
        ];
        let locations: Vec<String> = vec!["Remote".to_owned(), "United States".to_owned()];
        let keywords: Vec<String> = vec![
            "TypeScript".to_owned(),
            "React".to_owned(),
            "Node.js".to_owned(),
            "Rust".to_owned(),
            "Tauri".to_owned(),
            "Next.js".to_owned(),
        ];
        let company_blacklist: Vec<String> = Vec::new();
        assert(strings_view(preferred_titles@) =~= default_settings().preferred_titles);
        assert(strings_view(locations@) =~= default_settings().locations);
        assert(strings_view(keywords@) =~= default_settings().keywords);
        assert(strings_view(company_blacklist@) =~= default_settings().company_blacklist);
        JobSettings {
            preferred_titles,
            locations,
            keywords,
            remote_only: true,
            salary_min: Some(120_000),
            salary_max: Some(200_000),
            company_blacklist,
        }
    }
}

impl JobSettings {
    /// The JSON form of these settings.
    pub fn to_json(&self) -> (r: Json)
        ensures
            r@ == settings_json(self@),
    {
        let mut entries: Vec<(String, Json)> = Vec::new();
        assert(entries_view(entries@) =~= Seq::empty());
        push_member(&mut entries, "preferredTitles", Json::text_list(&self.preferred_titles));
        push_member(&mut entries, "locations", Json::text_list(&self.locations));
        push_member(&mut entries, "keywords", Json::text_list(&self.keywords));
        push_member(&mut entries, "remoteOnly", Json::Bool(self.remote_only));
        push_member(&mut entries, "salaryMin", optional_number_json(self.salary_min));
        push_member(&mut entries, "salaryMax", optional_number_json(self.salary_max));
        push_member(&mut entries, "companyBlacklist", Json::text_list(&self.company_blacklist));
        let r = Json::object(entries);
        assert(r@->Object_0 =~= settings_json(self@)->Object_0);
        r
    }

    /// Reads settings from their JSON form; `None` where the document does
    /// not have the shape of settings.
    pub fn from_json(json: &Json) -> (r: Option<JobSettings>)
        ensures
            option_settings_view(r) == settings_of_json(json@),
    {
        let preferred_titles = match read_list(json, "preferredTitles") {
            Some(list) => list,
            None => { return None; },
        };
        let locations = match read_list(json, "locations") {
            Some(list) => list,
            None => { return None; },
        };
        let keywords = match read_list(json, "keywords") {
            Some(list) => list,
            None => { return None; },
        };
        let remote_only = match json.get("remoteOnly") {
            Some(value) => match value.as_bool() {
                Some(flag) => flag,
                None => { return None; },
            },
            None => { return None; },
        };
        let salary_min = match read_optional_integer(json, "salaryMin") {
            Some(bound) => bound,
            None => { return None; },
        };
        let salary_max = match read_optional_integer(json, "salaryMax") {
            Some(bound) => bound,
            None => { return None; },
        };
        let company_blacklist = match read_list(json, "companyBlacklist") {
            Some(list) => list,
            None => { return None; },
        };
        Some(
            JobSettings {
                preferred_titles,
                locations,
                keywords,
                remote_only,
                salary_min,
                salary_max,
                company_blacklist,
            },
        )
    }
}

/// Settings written to JSON and read back are the settings that were
/// written.
pub proof fn lemma_settings_round_trip(s: SettingsModel)
    ensures
        settings_of_json(settings_json(s)) == Some(s),
{
    reveal_strlit("preferredTitles");
    reveal_strlit("locations");
    reveal_strlit("keywords");
    reveal_strlit("remoteOnly");
    reveal_strlit("salaryMin");
    reveal_strlit("salaryMax");
    reveal_strlit("companyBlacklist");
    reveal_with_fuel(lookup, 8);
    let json = settings_json(s);
    let entries = json->Object_0;
    assert("salaryMin"@[7] != "salaryMax"@[7]);
    assert("locations"@[0] != "salaryMin"@[0]);
    assert("locations"@[0] != "salaryMax"@[0]);
    assert(entries[0].0.len() == 15);
    assert(entries[1].0.len() == 9);
    assert(entries[2].0.len() == 8);
    assert(entries[3].0.len() == 10);
    assert(entries[4].0.len() == 9);
    assert(entries[5].0.len() == 9);
    assert(entries[6].0.len() == 16);
    lemma_text_array_round_trip(s.preferred_titles);
    lemma_text_array_round_trip(s.locations);
    lemma_text_array_round_trip(s.keywords);
    lemma_text_array_round_trip(s.company_blacklist);
    if s.salary_min is Some {
        lemma_signed_round_trip(s.salary_min->0);
    }
    if s.salary_max is Some {
        lemma_signed_round_trip(s.salary_max->0);
    }
    lemma_member_at(entries, 0);
    lemma_member_at(entries, 1);
    lemma_member_at(entries, 2);
    lemma_member_at(entries, 3);
    lemma_member_at(entries, 4);
    lemma_member_at(entries, 5);
    lemma_member_at(entries, 6);
}

} // verus!
