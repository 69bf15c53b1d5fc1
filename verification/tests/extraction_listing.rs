use job_hunter::extraction::{
    assemble_listing, company_from_meta, excerpt, extract_company, extract_listing,
    extract_location, extract_title, location_from_capture,
};
use job_hunter::text::{is_blank_text, text_is};

#[test]
fn title_falls_back_and_company_is_split_off() {
    let listing = extract_listing(
        "<html><head><meta name=\"viewport\" content=\"w\"></head><body><p>x</p></body></html>",
        "some text",
        "Senior Backend Engineer - Acme Corp",
    );
    assert_eq!(listing.title.as_deref(), Some("Senior Backend Engineer - Acme Corp"));
    assert_eq!(listing.company.as_deref(), Some("Acme Corp"));
    assert_eq!(listing.location, None);
    assert_eq!(listing.text, "some text");
    assert_eq!(listing.raw_excerpt.as_deref(), Some("some text"));
}

#[test]
fn location_follows_the_word_location() {
    assert_eq!(
        extract_location("Apply now. Location: Remote, USA\nSalary: high").as_deref(),
        Some("Remote, USA")
    );
    assert_eq!(extract_location("Location\t\tBerlin/Mitte (hybrid)").as_deref(), Some("Berlin/Mitte"));
    assert_eq!(extract_location("location: lower case is not matched"), None);
    assert_eq!(extract_location("Location: ab").as_deref(), Some("ab"));
    assert_eq!(extract_location("Location:ab"), None);
    assert_eq!(extract_location("Location:    "), None);
    assert_eq!(extract_location("no such word"), None);
}

#[test]
fn first_heading_is_the_title() {
    let html = "<html><body><h1>Rust <b>Developer</b></h1><h1>Second</h1></body></html>";
    let listing = extract_listing(html, "", "Fallback");
    assert_eq!(listing.title.as_deref(), Some("Rust Developer"));
    assert_eq!(listing.company, None);
    assert_eq!(listing.raw_excerpt, None);
}

#[test]
fn blank_heading_gives_way_to_the_fallback() {
    let html = "<html><body><h1>  \n </h1><h1>Second</h1></body></html>";
    assert_eq!(extract_listing(html, "", "Fallback").title.as_deref(), Some("Fallback"));
    assert_eq!(extract_listing(html, "", "  ").title, None);
    assert_eq!(extract_listing("", "", "").title, None);
}

#[test]
fn company_comes_from_the_first_matching_meta_tag() {
    let html = "<html><head>\
        <meta name=\"description\" content=\"ignored\">\
        <meta property=\"og:title\" name=\"company\" content=\"shadowed by property\">\
        <meta name=\"application-name\">\
        <meta property=\"og:site_name\" content=\"Globex\">\
        <meta name=\"company\" content=\"Later\">\
        </head><body><h1>Dev - Initech</h1></body></html>";
    assert_eq!(extract_company(html).as_deref(), Some("Globex"));
    assert_eq!(extract_listing(html, "t", "").company.as_deref(), Some("Globex"));
    assert_eq!(extract_company("<html><head><meta name=\"company\" content=\"\"></head></html>").as_deref(), Some(""));
    assert_eq!(extract_company("<p>no meta</p>"), None);
}

#[test]
fn company_rows_are_read_by_place() {
    let row = |p: Option<&str>, n: Option<&str>, c: Option<&str>| {
        vec![p.map(str::to_string), n.map(str::to_string), c.map(str::to_string)]
    };
    let rows = Some(vec![
        row(Some("other"), Some("company"), Some("A")),
        row(None, Some("company"), None),
        vec![None, Some("company".to_string())],
        row(None, Some("application-name"), Some("B")),
    ]);
    assert_eq!(company_from_meta(&rows).as_deref(), Some("B"));
    assert_eq!(company_from_meta(&Some(vec![])), None);
    assert_eq!(company_from_meta(&None), None);
}

#[test]
fn excerpt_is_the_first_four_hundred_characters() {
    assert_eq!(excerpt(""), None);
    assert_eq!(excerpt("short").as_deref(), Some("short"));
    let long = "x".repeat(401);
    assert_eq!(excerpt(&long).unwrap(), "x".repeat(400));
    let exact = "y".repeat(400);
    assert_eq!(excerpt(&exact).unwrap(), exact);
    // 201 characters in 402 bytes: the whole text is kept.
    let wide = "é".repeat(201);
    assert_eq!(excerpt(&wide).unwrap(), wide);
    let full = "é".repeat(400);
    assert_eq!(excerpt(&full).unwrap(), full);
    let over = format!("{}a", "€".repeat(400));
    assert_eq!(excerpt(&over).unwrap(), "€".repeat(400));
    let mixed = format!("a{}", "😀".repeat(400));
    assert_eq!(excerpt(&mixed).unwrap(), format!("a{}", "😀".repeat(399)));
}

#[test]
fn listing_keeps_the_text_and_cuts_the_excerpt_by_characters() {
    let text = format!("Location: Köln/Deutz {}", "ü".repeat(500));
    let listing = extract_listing("", &text, "");
    assert_eq!(listing.text, text);
    assert_eq!(listing.location, extract_location(&text));
    assert_eq!(listing.raw_excerpt.unwrap(), text.chars().take(400).collect::<String>());
    let short = "é".repeat(201);
    assert_eq!(extract_listing("", &short, "").raw_excerpt.unwrap(), short);
}

#[test]
fn listing_is_assembled_from_its_parts() {
    let listing = assemble_listing(
        &Some(vec!["Engineer @ Hooli".to_string()]),
        &Some(vec![]),
        &Some("  Zurich ".to_string()),
        "body",
        "unused",
    );
    assert_eq!(listing.title.as_deref(), Some("Engineer @ Hooli"));
    assert_eq!(listing.company.as_deref(), Some("Hooli"));
    assert_eq!(listing.location.as_deref(), Some("Zurich"));
    assert_eq!(listing.raw_excerpt.as_deref(), Some("body"));
}

#[test]
fn small_extraction_helpers_answer_exactly() {
    assert!(is_blank_text(" \t"));
    assert!(is_blank_text(""));
    assert!(!is_blank_text(" a "));
    assert!(text_is("abc", "abc"));
    assert!(!text_is("abc", "abd"));
    assert_eq!(extract_title(&None, "T").as_deref(), Some("T"));
    assert_eq!(extract_title(&Some(vec![]), " ").as_deref(), None);
    assert_eq!(location_from_capture(&None), None);
    assert_eq!(location_from_capture(&Some("   ".to_string())), None);
}
