use job_hunter::extraction::ExtractedListing;
use job_hunter::scoring::{
    match_listing, round_score, score_from, score_text, summarize, MatchScore,
};
use job_hunter::settings::JobSettings;

fn listing(title: Option<&str>, company: Option<&str>, location: Option<&str>, text: &str) -> ExtractedListing {
    ExtractedListing {
        title: title.map(str::to_string),
        company: company.map(str::to_string),
        location: location.map(str::to_string),
        text: text.to_string(),
        raw_excerpt: None,
    }
}

fn settings(keywords: &[&str]) -> JobSettings {
    JobSettings {
        preferred_titles: vec![],
        locations: vec![],
        keywords: keywords.iter().map(|k| k.to_string()).collect(),
        remote_only: false,
        salary_min: None,
        salary_max: None,
        company_blacklist: vec![],
    }
}

fn score(numerator: u128, denominator: u128) -> MatchScore {
    MatchScore { numerator, denominator }
}

#[test]
fn half_the_keywords_give_fifty() {
    let r = match_listing(&listing(None, None, None, "We write Rust all day."), &settings(&["Rust", "React"]));
    assert_eq!(r.match_score, score(100, 2));
    assert_eq!(r.summary, "Matched 50% of keywords. Remote preference: off. Title signal: unknown.");
}

#[test]
fn remote_preference_adds_eight() {
    let mut s = settings(&["Rust", "React"]);
    s.remote_only = true;
    let r = match_listing(&listing(Some("Dev"), None, None, "Rust, fully REMOTE."), &s);
    assert_eq!(r.match_score, score(116, 2));
    assert_eq!(round_score(r.match_score), 58);
    assert_eq!(r.summary, "Matched 58% of keywords. Remote preference: on. Title signal: Dev.");
    let r = match_listing(&listing(None, None, None, "Rust, on site."), &s);
    assert_eq!(r.match_score, score(100, 2));
}

#[test]
fn no_keywords_give_exactly_fifty() {
    let r = match_listing(&listing(Some("T"), Some("C"), Some("L"), "anything"), &settings(&[]));
    assert_eq!(r.match_score, score(50, 1));
    assert_eq!(round_score(r.match_score), 50);
    assert_eq!(score_text(r.match_score), "50.000000");
}

#[test]
fn bonuses_and_penalty_add_up() {
    let mut s = settings(&["rust", "go", "zig", "c"]);
    s.preferred_titles = vec!["".to_string(), "backend ENGINEER".to_string()];
    s.locations = vec!["berlin".to_string()];
    s.company_blacklist = vec!["initech".to_string()];
    s.remote_only = true;
    let l = listing(Some("Senior Backend Engineer"), Some("INITECH GmbH"), Some("Berlin, DE"), "Rust and Go. Remote.");
    // 2 of 4 keywords: 50; +10 +6 +8 -15 = 59.
    assert_eq!(match_listing(&l, &s).match_score, score(4 * 59, 4));
}

#[test]
fn empty_values_match_nothing_but_empty_keywords_hit() {
    let mut s = settings(&[""]);
    s.preferred_titles = vec!["".to_string()];
    s.locations = vec!["".to_string()];
    s.company_blacklist = vec!["".to_string()];
    let l = listing(Some("T"), Some("C"), Some("L"), "text");
    assert_eq!(match_listing(&l, &s).match_score, score(100, 1));
}

#[test]
fn score_is_clamped_to_the_range() {
    let mut s = settings(&["rust"]);
    s.preferred_titles = vec!["dev".to_string()];
    let high = match_listing(&listing(Some("Dev"), None, None, "rust"), &s);
    assert_eq!(high.match_score, score(100, 1));
    let mut s = settings(&["rust"]);
    s.company_blacklist = vec!["evil".to_string()];
    let low = match_listing(&listing(None, Some("Evil Corp"), None, "python"), &s);
    assert_eq!(low.match_score, score(0, 1));
    assert_eq!(low.summary, "Matched 0% of keywords. Remote preference: off. Title signal: unknown.");
}

#[test]
fn score_stays_in_range_on_many_inputs() {
    let texts = ["", "rust", "rust react remote", "REMOTE go"];
    let keyword_sets: [&[&str]; 4] = [&[], &["rust"], &["rust", "react", "go"], &["x", "y", "z", "w", "rust", "go", "a"]];
    for text in texts {
        for keywords in keyword_sets {
            for flags in 0..16u32 {
                let mut s = settings(keywords);
                s.remote_only = flags & 1 != 0;
                if flags & 2 != 0 { s.preferred_titles = vec!["dev".to_string()]; }
                if flags & 4 != 0 { s.locations = vec!["paris".to_string()]; }
                if flags & 8 != 0 { s.company_blacklist = vec!["acme".to_string()]; }
                let r = match_listing(&listing(Some("Dev"), Some("Acme"), Some("Paris"), text), &s);
                assert!(r.match_score.denominator >= 1);
                assert!(r.match_score.numerator <= 100 * r.match_score.denominator);
                assert!(round_score(r.match_score) <= 100);
            }
        }
    }
}

#[test]
fn rounding_goes_to_the_nearest_and_to_even_on_a_tie() {
    assert_eq!(round_score(score(100, 3)), 33);
    assert_eq!(round_score(score(200, 3)), 67);
    assert_eq!(round_score(score(25, 2)), 12);
    assert_eq!(round_score(score(27, 2)), 14);
    assert_eq!(round_score(score(1, 2)), 0);
    assert_eq!(round_score(score(3, 2)), 2);
    assert_eq!(round_score(score(199, 2)), 100);
    assert_eq!(round_score(score(100, 1)), 100);
    assert_eq!(round_score(score(0, 7)), 0);
}

#[test]
fn score_literal_has_six_decimal_places() {
    assert_eq!(score_text(score(100, 3)), "33.333333");
    assert_eq!(score_text(score(200, 3)), "66.666666");
    assert_eq!(score_text(score(25, 2)), "12.500000");
    assert_eq!(score_text(score(100, 1)), "100.000000");
    assert_eq!(score_text(score(0, 5)), "0.000000");
    assert_eq!(score_text(score(1, 1_000_000)), "0.000001");
    assert_eq!(score_text(score(1, 10_000_000)), "0.000000");
}

#[test]
fn summary_follows_the_template() {
    assert_eq!(
        summarize(7, true, &Some("A. Title".to_string())),
        "Matched 7% of keywords. Remote preference: on. Title signal: A. Title."
    );
    assert_eq!(
        summarize(100, false, &None),
        "Matched 100% of keywords. Remote preference: off. Title signal: unknown."
    );
}

#[test]
fn matching_ignores_case_beyond_ascii() {
    let mut s = settings(&["ÜBER", "straße"]);
    s.preferred_titles = vec!["ÉCOLE".to_string()];
    let r = match_listing(&listing(Some("école normale"), None, None, "über alles, STRASSE"), &s);
    // "über" hits; "straße" does not occur in "strasse"; the title matches.
    assert_eq!(r.match_score, score(100 + 10 * 2, 2));
}

#[test]
fn score_from_adds_the_signals_up() {
    // No keywords: 50, and each signal on its own.
    assert_eq!(score_from(0, 0, false, false, false, false), score(50, 1));
    assert_eq!(score_from(0, 0, true, false, false, false), score(60, 1));
    assert_eq!(score_from(0, 0, false, true, false, false), score(56, 1));
    assert_eq!(score_from(0, 0, false, false, true, false), score(58, 1));
    assert_eq!(score_from(0, 0, false, false, false, true), score(35, 1));
    assert_eq!(score_from(0, 0, true, true, true, true), score(59, 1));
    // One of two keywords: 50, with remote work 58.
    assert_eq!(score_from(1, 2, false, false, false, false), score(100, 2));
    assert_eq!(score_from(1, 2, false, false, true, false), score(116, 2));
    // One of three keywords, with every bonus: 33 1/3 + 24.
    assert_eq!(score_from(1, 3, true, true, true, false), score(100 + 24 * 3, 3));
    assert_eq!(score_text(score_from(1, 3, true, true, true, false)), "57.333333");
    assert_eq!(round_score(score_from(1, 3, true, true, true, false)), 57);
}

#[test]
fn score_from_clamps_at_both_ends() {
    assert_eq!(score_from(3, 3, true, false, false, false), score(300, 3));
    assert_eq!(score_from(3, 3, true, true, true, true), score(300, 3));
    assert_eq!(score_from(19, 20, false, true, false, false), score(2000, 20));
    assert_eq!(score_from(0, 4, false, false, false, true), score(0, 4));
    assert_eq!(score_from(1, 10, false, false, false, true), score(0, 10));
    assert_eq!(score_from(1, 5, false, false, false, true), score(100 - 75, 5));
    // More hits than keywords cannot lift the score over 100.
    assert_eq!(score_from(9, 2, false, false, false, false), score(200, 2));
    let huge = score_from(usize::MAX, usize::MAX, true, true, true, false);
    assert_eq!(huge, score(100 * usize::MAX as u128, usize::MAX as u128));
    assert!(huge.is_well_formed());
    assert!(!score(101, 1).is_well_formed());
    assert!(!score(0, 0).is_well_formed());
}

#[test]
fn list_order_does_not_change_the_match() {
    let l = listing(Some("Rust Developer"), Some("Acme"), Some("Paris"), "rust go remote");
    let mut a = settings(&["rust", "zig", "go", "rust"]);
    a.preferred_titles = vec!["java".to_string(), "developer".to_string()];
    a.locations = vec!["paris".to_string(), "rome".to_string()];
    a.company_blacklist = vec!["x".to_string(), "acme".to_string()];
    a.remote_only = true;
    a.salary_min = Some(1);
    let mut b = settings(&["go", "rust", "rust", "zig"]);
    b.preferred_titles = vec!["developer".to_string(), "java".to_string()];
    b.locations = vec!["rome".to_string(), "paris".to_string()];
    b.company_blacklist = vec!["acme".to_string(), "x".to_string()];
    b.remote_only = true;
    b.salary_max = Some(9);
    let (ra, rb) = (match_listing(&l, &a), match_listing(&l, &b));
    assert_eq!(ra.match_score, rb.match_score);
    assert_eq!(ra.summary, rb.summary);
    assert_eq!(ra.match_score, score(300 + 9 * 4, 4));
}
