//! Scoring a listing against the user's settings.
//!
//! A score is an exact fraction of whole numbers between 0 and 100.

use crate::extraction::{ExtractedListing, ListingModel};
use crate::json::option_view;
use crate::settings::{JobSettings, SettingsModel};
use crate::text::{
    chars_of, contains, decimal, digit_char, digit_of, find, lemma_contains_is_find, lowercase,
    push_decimal, strings_view, to_lowercase,
};
use vstd::prelude::*;
use vstd::string::StringExecFns;

verus! {

/// What a preferred title that matches adds to the score.
pub const TITLE_BONUS: u128 = 10;

/// What a target location that matches adds to the score.
pub const LOCATION_BONUS: u128 = 6;

/// What a remote listing adds to the score of a user who wants one.
pub const REMOTE_BONUS: u128 = 8;

/// What a blacklisted company takes off the score.
pub const BLACKLIST_PENALTY: u128 = 15;

/// The score of a listing with no keywords to look for.
pub const NEUTRAL_SCORE: u128 = 50;

/// The largest score.
pub const FULL_SCORE: u128 = 100;

/// A score: the fraction `numerator / denominator`, with a denominator of
/// at least one and a value between 0 and 100.
#[derive(Clone, Copy, Debug, PartialEq, Eq)]
pub struct MatchScore {
    pub numerator: u128,
    pub denominator: u128,
}

impl MatchScore {
    /// The denominator is at least one and fits 64 bits, and the value lies
    /// between 0 and 100.
    pub open spec fn well_formed(self) -> bool {
        1 <= self.denominator <= u64::MAX && self.numerator <= FULL_SCORE * self.denominator
    }

    /// Whether this is a score as `match_listing` makes them.
    pub fn is_well_formed(&self) -> (r: bool)
        ensures
            r == self.well_formed(),
    {
        1 <= self.denominator && self.denominator <= 0xffff_ffff_ffff_ffff && self.numerator
            <= FULL_SCORE * self.denominator
    }
}

/// The score of a listing and the sentence that reports it.
#[derive(Debug)]
pub struct MatchResult {
    pub summary: String,
    pub match_score: MatchScore,
}

/// The mathematical model of `MatchResult`.
pub struct MatchResultModel {
    pub summary: Seq<char>,
    pub numerator: nat,
    pub denominator: nat,
}

impl View for MatchResult {
    type V = MatchResultModel;

    open spec fn view(&self) -> MatchResultModel {
        MatchResultModel {
            summary: self.summary@,
            numerator: self.match_score.numerator as nat,
            denominator: self.match_score.denominator as nat,
        }
    }
}

/// The number of keywords whose lowercase form stands in the lowercase text.
pub open spec fn keyword_hits(text_lower: Seq<char>, keywords: Seq<Seq<char>>) -> nat
    decreases keywords.len(),
{
    if keywords.len() == 0 {
        0
    } else {
        keyword_hits(text_lower, keywords.subrange(0, keywords.len() - 1)) + (if contains(
            text_lower,
            lowercase(keywords[keywords.len() - 1]),
        ) {
            1nat
        } else {
            0nat
        })
    }
}

/// Some non-empty one of `values` stands, in lowercase, in the lowercase
/// text `hay_lower`.
pub open spec fn any_match(hay_lower: Seq<char>, values: Seq<Seq<char>>) -> bool {
    exists|i: int|
        0 <= i < values.len() && (#[trigger] values[i]).len() > 0 && contains(
            hay_lower,
            lowercase(values[i]),
        )
}

/// A preferred title matches the listing's title.
pub open spec fn title_matches(listing: ListingModel, settings: SettingsModel) -> bool {
    listing.title is Some && any_match(lowercase(listing.title->0), settings.preferred_titles)
}

/// A target location matches the listing's location.
pub open spec fn location_matches(listing: ListingModel, settings: SettingsModel) -> bool {
    listing.location is Some && any_match(lowercase(listing.location->0), settings.locations)
}

/// The user wants remote work and the listing's text speaks of it.
pub open spec fn remote_matches(listing: ListingModel, settings: SettingsModel) -> bool {
    settings.remote_only && contains(lowercase(listing.text), "remote"@)
}

/// The listing's company is on the blacklist.
pub open spec fn blacklisted(listing: ListingModel, settings: SettingsModel) -> bool {
    listing.company is Some && any_match(
        lowercase(listing.company->0),
        settings.company_blacklist,
    )
}

/// The signals that a score is made of: how many of the keywords hit, and
/// whether a preferred title, a target location, the wish for remote work
/// and the blacklist match.
pub struct Signals {
    pub hits: nat,
    pub keywords: nat,
    pub title: bool,
    pub location: bool,
    pub remote: bool,
    pub blacklisted: bool,
}

/// The denominator of a score: the number of keywords, or one where there
/// are none.
pub open spec fn denominator_of(keywords: nat) -> nat {
    if keywords == 0 {
        1
    } else {
        keywords
    }
}

/// The base score times the denominator: 50 without keywords, else the
/// share of the keywords that hit, in percent.
pub open spec fn base_of(signals: Signals) -> nat {
    if signals.keywords == 0 {
        NEUTRAL_SCORE as nat
    } else {
        FULL_SCORE as nat * signals.hits
    }
}

/// What the bonuses add to the score.
pub open spec fn bonus_of(signals: Signals) -> nat {
    (if signals.title {
        TITLE_BONUS as nat
    } else {
        0
    }) + (if signals.location {
        LOCATION_BONUS as nat
    } else {
        0
    }) + (if signals.remote {
        REMOTE_BONUS as nat
    } else {
        0
    })
}

/// What the penalty takes off the score.
pub open spec fn penalty_of(signals: Signals) -> nat {
    if signals.blacklisted {
        BLACKLIST_PENALTY as nat
    } else {
        0
    }
}

/// The score before clamping, times the denominator.
pub open spec fn raw_of(signals: Signals) -> int {
    base_of(signals) + (bonus_of(signals) - penalty_of(signals)) * denominator_of(
        signals.keywords,
    )
}

/// The score, times the denominator: the raw score clamped to the range
/// from 0 to 100.
pub open spec fn numerator_of(signals: Signals) -> nat {
    let raw = raw_of(signals);
    let full = FULL_SCORE as nat * denominator_of(signals.keywords);
    if raw < 0 {
        0
    } else if raw > full {
        full
    } else {
        raw as nat
    }
}

/// The signals that a listing gives against settings.
pub open spec fn signals_of(listing: ListingModel, settings: SettingsModel) -> Signals {
    Signals {
        hits: keyword_hits(lowercase(listing.text), settings.keywords),
        keywords: settings.keywords.len(),
        title: title_matches(listing, settings),
        location: location_matches(listing, settings),
        remote: remote_matches(listing, settings),
        blacklisted: blacklisted(listing, settings),
    }
}

/// The denominator of the score of a listing against settings.
pub open spec fn score_denominator(settings: SettingsModel) -> nat {
    denominator_of(settings.keywords.len())
}

/// The score of a listing against settings, times the denominator.
pub open spec fn score_numerator(listing: ListingModel, settings: SettingsModel) -> nat {
    numerator_of(signals_of(listing, settings))
}

/// The whole number nearest to `numerator / denominator`; of two that are
/// equally near, the even one.
pub open spec fn rounded(numerator: nat, denominator: nat) -> nat
    recommends
        denominator > 0,
{
    let quotient = numerator / denominator;
    let rest = numerator % denominator;
    if 2 * rest < denominator {
        quotient
    } else if 2 * rest > denominator {
        quotient + 1
    } else if quotient % 2 == 0 {
        quotient
    } else {
        quotient + 1
    }
}

/// The sentence that reports a score.
pub open spec fn summary_of(percent: nat, remote_only: bool, title: Option<Seq<char>>) -> Seq<
    char,
> {
    "Matched "@ + decimal(percent) + "% of keywords. Remote preference: "@ + (if remote_only {
        "on"@
    } else {
        "off"@
    }) + ". Title signal: "@ + (match title {
        Some(t) => t,
        None => "unknown"@,
    }) + "."@
}

/// The result of matching a listing against settings.
pub open spec fn match_of(listing: ListingModel, settings: SettingsModel) -> MatchResultModel {
    MatchResultModel {
        summary: summary_of(
            rounded(score_numerator(listing, settings), score_denominator(settings)),
            settings.remote_only,
            listing.title,
        ),
        numerator: score_numerator(listing, settings),
        denominator: score_denominator(settings),
    }
}

/// The literal of a score as a JSON number: its whole part, a point and six
/// decimal places, the rest cut off.
pub open spec fn score_literal(numerator: nat, denominator: nat) -> Seq<char>
    recommends
        denominator > 0,
{
    let places = (numerator % denominator) * 1_000_000 / denominator;
    decimal(numerator / denominator) + seq![
        '.',
        digit_char(places / 100_000 % 10),
        digit_char(places / 10_000 % 10),
        digit_char(places / 1_000 % 10),
        digit_char(places / 100 % 10),
        digit_char(places / 10 % 10),
        digit_char(places % 10),
    ]
}

/// Whether the lowercase form of `value` stands in `hay`.
fn lowercase_occurs(hay: &Vec<char>, value: &str) -> (r: bool)
    ensures
        r == contains(hay@, lowercase(value@)),
{
    let lowered = to_lowercase(value);
    let needle = chars_of(lowered.as_str());
    proof {
        lemma_contains_is_find(hay@, needle@);
    }
    find(hay, &needle, 0).is_some()
}

/// Whether some non-empty one of `values` stands, in lowercase, in the
/// lowercase form of `subject`.
fn any_value_matches(subject: &str, values: &Vec<String>) -> (r: bool)
    ensures
        r == any_match(lowercase(subject@), strings_view(values@)),
{
    let lowered = to_lowercase(subject);
    let hay = chars_of(lowered.as_str());
    let mut i: usize = 0;
    while i < values.len()
        invariant
            i <= values@.len(),
            hay@ == lowercase(subject@),
            forall|k: int|
                0 <= k < i ==> !((#[trigger] strings_view(values@)[k]).len() > 0 && contains(
                    hay@,
                    lowercase(strings_view(values@)[k]),
                )),
        decreases values@.len() - i,
    {
        let value = values[i].as_str();
        assert(strings_view(values@)[i as int] == value@);
        if !value.is_empty() && lowercase_occurs(&hay, value) {
            return true;
        }
        i += 1;
    }
    false
}

/// The number of keywords whose lowercase form stands in `hay`.
fn count_hits(hay: &Vec<char>, keywords: &Vec<String>) -> (hits: usize)
    ensures
        hits == keyword_hits(hay@, strings_view(keywords@)),
        hits <= keywords@.len(),
{
    let ghost all = strings_view(keywords@);
    let mut hits: usize = 0;
    let mut i: usize = 0;
    proof {
        assert(all.subrange(0, 0) =~= Seq::<Seq<char>>::empty());
    }
    while i < keywords.len()
        invariant
            i <= keywords@.len(),
            all == strings_view(keywords@),
            hits <= i,
            hits == keyword_hits(hay@, all.subrange(0, i as int)),
        decreases keywords@.len() - i,
    {
        proof {
            let next = all.subrange(0, i + 1);
            assert(next.subrange(0, next.len() - 1) =~= all.subrange(0, i as int));
            assert(next[next.len() - 1] == keywords@[i as int]@);
        }
        if lowercase_occurs(hay, keywords[i].as_str()) {
            hits += 1;
        }
        i += 1;
    }
    assert(all.subrange(0, all.len() as int) =~= all);
    hits
}

/// The whole number nearest to the score; of two that are equally near, the
/// even one.
pub fn round_score(score: MatchScore) -> (r: u64)
    requires
        score.well_formed(),
    ensures
        r == rounded(score.numerator as nat, score.denominator as nat),
        r <= FULL_SCORE,
{
    let quotient: u128 = score.numerator / score.denominator;
    let rest: u128 = score.numerator % score.denominator;
    assert(quotient <= 100 && (quotient == 100 ==> rest == 0)) by (nonlinear_arith)
        requires
            score.denominator > 0,
            score.numerator <= 100 * score.denominator,
            quotient == score.numerator / score.denominator,
            rest == score.numerator % score.denominator,
    ;
    // `rest < denominator`, so `denominator - rest` stands for `2 * rest`
    // against `denominator` without overflow.
    let short: u128 = score.denominator - rest;
    let up: bool = if rest > short {
        true
    } else if rest < short {
        false
    } else {
        quotient % 2 == 1
    };
    if up {
        (quotient + 1) as u64
    } else {
        quotient as u64
    }
}

/// The sentence that reports a score.
pub fn summarize(percent: u64, remote_only: bool, title: &Option<String>) -> (r: String)
    ensures
        r@ == summary_of(percent as nat, remote_only, option_view(*title)),
{
    let mut out = String::new();
    out.append("Matched ");
    push_decimal(&mut out, percent);
    out.append("% of keywords. Remote preference: ");
    if remote_only {
        out.append("on");
    } else {
        out.append("off");
    }
    out.append(". Title signal: ");
    match title {
        Some(t) => out.append(t.as_str()),
        None => out.append("unknown"),
    }
    out.append(".");
    assert(out@ =~= summary_of(percent as nat, remote_only, option_view(*title)));
    out
}

/// Scores a listing against the settings: the share of the keywords that
/// occur in its text, plus 10 for a preferred title, 6 for a target
/// location and 8 for remote work where the user wants it, minus 15 for a
/// blacklisted company, clamped to the range from 0 to 100.
pub fn match_listing(extracted: &ExtractedListing, settings: &JobSettings) -> (r: MatchResult)
    ensures
        r@ == match_of(extracted@, settings@),
        r.match_score.well_formed(),
{
    let text_lower = to_lowercase(extracted.text.as_str());
    let hay = chars_of(text_lower.as_str());
    let total: usize = settings.keywords.len();
    assert(strings_view(settings.keywords@).len() == total);
    let hits: usize = count_hits(&hay, &settings.keywords);
    let title = match &extracted.title {
        Some(title) => any_value_matches(title.as_str(), &settings.preferred_titles),
        None => false,
    };
    let location = match &extracted.location {
        Some(location) => any_value_matches(location.as_str(), &settings.locations),
        None => false,
    };
    let remote = settings.remote_only && lowercase_occurs_plain(&hay, "remote");
    let blacklisted = match &extracted.company {
        Some(company) => any_value_matches(company.as_str(), &settings.company_blacklist),
        None => false,
    };
    let match_score = score_from(hits, total, title, location, remote, blacklisted);
    let percent = round_score(match_score);
    MatchResult { summary: summarize(percent, settings.remote_only, &extracted.title), match_score }
}

/// The score that the signals give: the share of the keywords that hit, in
/// percent, or 50 where there are no keywords; plus 10 for the title, 6 for
/// the location and 8 for remote work, minus 15 for a blacklisted company;
/// clamped to the range from 0 to 100.
pub fn score_from(
    hits: usize,
    keywords: usize,
    title: bool,
    location: bool,
    remote: bool,
    blacklisted: bool,
) -> (r: MatchScore)
    ensures
        r.well_formed(),
        r.denominator == denominator_of(keywords as nat),
        r.numerator == numerator_of(
            Signals {
                hits: hits as nat,
                keywords: keywords as nat,
                title,
                location,
                remote,
                blacklisted,
            },
        ),
{
    let ghost signals = Signals {
        hits: hits as nat,
        keywords: keywords as nat,
        title,
        location,
        remote,
        blacklisted,
    };
    let denominator: u128 = if keywords == 0 {
        1
    } else {
        keywords as u128
    };
    let base: u128 = if keywords == 0 {
        50
    } else {
        100 * (hits as u128)
    };
    let mut bonus: u128 = 0;
    if title {
        bonus += 10;
    }
    if location {
        bonus += 6;
    }
    if remote {
        bonus += 8;
    }
    let fine: u128 = if blacklisted {
        15
    } else {
        0
    };
    assert(bonus == bonus_of(signals));
    assert(fine == penalty_of(signals));
    assert(base == base_of(signals));
    assert(bonus * denominator <= 24 * 0xffff_ffff_ffff_ffff && fine * denominator <= 15
        * 0xffff_ffff_ffff_ffff) by (nonlinear_arith)
        requires
            bonus <= 24,
            fine <= 15,
            denominator <= 0xffff_ffff_ffff_ffff,
    ;
    let gain: u128 = base + bonus * denominator;
    let loss: u128 = fine * denominator;
    let full: u128 = 100 * denominator;
    assert(gain - loss == raw_of(signals)) by (nonlinear_arith)
        requires
            gain == base + bonus * denominator,
            loss == fine * denominator,
            raw_of(signals) == base + (bonus - fine) * denominator,
    ;
    let numerator: u128 = if gain < loss {
        0
    } else if gain - loss > full {
        full
    } else {
        gain - loss
    };
    MatchScore { numerator, denominator }
}

/// Whether `value`, taken as it stands, occurs in `hay`.
fn lowercase_occurs_plain(hay: &Vec<char>, value: &str) -> (r: bool)
    ensures
        r == contains(hay@, value@),
{
    let needle = chars_of(value);
    proof {
        lemma_contains_is_find(hay@, needle@);
    }
    find(hay, &needle, 0).is_some()
}

/// The literal of a score as a JSON number: its whole part, a point and six
/// decimal places, the rest cut off.
pub fn score_text(score: MatchScore) -> (r: String)
    requires
        score.well_formed(),
    ensures
        r@ == score_literal(score.numerator as nat, score.denominator as nat),
{
    let whole: u128 = score.numerator / score.denominator;
    let rest: u128 = score.numerator % score.denominator;
    assert(whole <= 100) by (nonlinear_arith)
        requires
            score.denominator > 0,
            score.numerator <= 100 * score.denominator,
            whole == score.numerator / score.denominator,
    ;
    assert(rest * 1_000_000 <= 0xffff_ffff_ffff_ffff * 1_000_000) by (nonlinear_arith)
        requires
            rest < score.denominator,
            score.denominator <= 0xffff_ffff_ffff_ffff,
    ;
    let places: u128 = rest * 1_000_000 / score.denominator;
    let mut out = String::new();
    push_decimal(&mut out, whole as u64);
    out.push('.');
    out.push(digit_of((places / 100_000 % 10) as u64));
    out.push(digit_of((places / 10_000 % 10) as u64));
    out.push(digit_of((places / 1_000 % 10) as u64));
    out.push(digit_of((places / 100 % 10) as u64));
    out.push(digit_of((places / 10 % 10) as u64));
    out.push(digit_of((places % 10) as u64));
    assert(out@ =~= score_literal(score.numerator as nat, score.denominator as nat));
    out
}

/// Whatever the listing and the settings, the score lies between 0 and 100,
/// and so does the whole number it is rounded to.
pub proof fn lemma_score_in_range(listing: ListingModel, settings: SettingsModel)
    ensures
        score_denominator(settings) >= 1,
        0 <= score_numerator(listing, settings) <= FULL_SCORE * score_denominator(settings),
        rounded(score_numerator(listing, settings), score_denominator(settings)) <= FULL_SCORE,
{
    let n = score_numerator(listing, settings);
    let d = score_denominator(settings);
    assert(n / d <= 100 && (n / d == 100 ==> n % d == 0)) by (nonlinear_arith)
        requires
            d >= 1,
            n <= 100 * d,
    ;
}

/// Without keywords, bonuses and penalty, the score is exactly 50.
pub proof fn lemma_neutral_score(listing: ListingModel, settings: SettingsModel)
    requires
        settings.keywords.len() == 0,
        bonus_of(signals_of(listing, settings)) == 0,
        penalty_of(signals_of(listing, settings)) == 0,
    ensures
        score_numerator(listing, settings) == NEUTRAL_SCORE,
        score_denominator(settings) == 1,
        rounded(score_numerator(listing, settings), score_denominator(settings)) == NEUTRAL_SCORE,
{
}

/// Taking one keyword away takes its hit away, wherever it stood.
proof fn lemma_hits_without(text_lower: Seq<char>, keywords: Seq<Seq<char>>, i: int)
    requires
        0 <= i < keywords.len(),
    ensures
        keyword_hits(text_lower, keywords) == keyword_hits(text_lower, keywords.remove(i)) + (
        if contains(text_lower, lowercase(keywords[i])) {
            1nat
        } else {
            0nat
        }),
    decreases keywords.len(),
{
    let shorter = keywords.subrange(0, keywords.len() - 1);
    if i == keywords.len() - 1 {
        assert(keywords.remove(i) =~= shorter);
    } else {
        let without = keywords.remove(i);
        lemma_hits_without(text_lower, shorter, i);
        assert(without.subrange(0, without.len() - 1) =~= shorter.remove(i));
        assert(without[without.len() - 1] == keywords[keywords.len() - 1]);
    }
}

/// The number of hits does not depend on the order of the keywords.
pub proof fn lemma_hits_of_permutation(
    text_lower: Seq<char>,
    first: Seq<Seq<char>>,
    second: Seq<Seq<char>>,
)
    requires
        first.to_multiset() == second.to_multiset(),
    ensures
        first.len() == second.len(),
        keyword_hits(text_lower, first) == keyword_hits(text_lower, second),
    decreases first.len(),
{
    broadcast use vstd::seq_lib::group_to_multiset_ensures;

    if first.len() == 0 {
        assert(second.to_multiset().len() == 0);
    } else {
        let last = first[first.len() - 1];
        assert(first.contains(last));
        assert(first.to_multiset().count(last) > 0);
        assert(second.contains(last));
        let j = second.index_of(last);
        let shorter = first.subrange(0, first.len() - 1);
        assert(shorter =~= first.remove(first.len() - 1));
        lemma_hits_of_permutation(text_lower, shorter, second.remove(j));
        lemma_hits_without(text_lower, second, j);
    }
}

/// Whether some value matches does not depend on the order of the values.
pub proof fn lemma_any_match_of_permutation(
    hay_lower: Seq<char>,
    first: Seq<Seq<char>>,
    second: Seq<Seq<char>>,
)
    requires
        first.to_multiset() == second.to_multiset(),
    ensures
        any_match(hay_lower, first) == any_match(hay_lower, second),
{
    broadcast use vstd::seq_lib::group_to_multiset_ensures;

    if any_match(hay_lower, first) {
        let i = choose|i: int|
            0 <= i < first.len() && (#[trigger] first[i]).len() > 0 && contains(
                hay_lower,
                lowercase(first[i]),
            );
        assert(first.contains(first[i]));
        assert(first.to_multiset().count(first[i]) > 0);
        assert(second.contains(first[i]));
        let j = second.index_of(first[i]);
        assert(second[j].len() > 0 && contains(hay_lower, lowercase(second[j])));
    }
    if any_match(hay_lower, second) {
        let i = choose|i: int|
            0 <= i < second.len() && (#[trigger] second[i]).len() > 0 && contains(
                hay_lower,
                lowercase(second[i]),
            );
        assert(second.contains(second[i]));
        assert(second.to_multiset().count(second[i]) > 0);
        assert(first.contains(second[i]));
        let j = first.index_of(second[i]);
        assert(first[j].len() > 0 && contains(hay_lower, lowercase(first[j])));
    }
}

/// The order of the lists of the settings is irrelevant to matching, and so
/// are the salary bounds: settings that hold the same titles, locations,
/// keywords and companies, each as often, and the same wish for remote
/// work, give a listing the same score and summary.
pub proof fn lemma_list_order_irrelevant(
    listing: ListingModel,
    first: SettingsModel,
    second: SettingsModel,
)
    requires
        first.preferred_titles.to_multiset() == second.preferred_titles.to_multiset(),
        first.locations.to_multiset() == second.locations.to_multiset(),
        first.keywords.to_multiset() == second.keywords.to_multiset(),
        first.company_blacklist.to_multiset() == second.company_blacklist.to_multiset(),
        first.remote_only == second.remote_only,
    ensures
        match_of(listing, first) == match_of(listing, second),
{
    lemma_hits_of_permutation(lowercase(listing.text), first.keywords, second.keywords);
    if listing.title is Some {
        lemma_any_match_of_permutation(
            lowercase(listing.title->0),
            first.preferred_titles,
            second.preferred_titles,
        );
    }
    if listing.location is Some {
        lemma_any_match_of_permutation(
            lowercase(listing.location->0),
            first.locations,
            second.locations,
        );
    }
    if listing.company is Some {
        lemma_any_match_of_permutation(
            lowercase(listing.company->0),
            first.company_blacklist,
            second.company_blacklist,
        );
    }
    assert(signals_of(listing, first) == signals_of(listing, second));
}

} // verus!
