//! Turning a scraped page into the fields of a listing.

use crate::html::{
    option_rows_view, option_texts_view, row_view, rows_view, select_attributes, select_texts,
    selected_attributes, selected_texts,
};
use crate::json::option_view;
use crate::pattern::{capture_first, first_capture};
use crate::text::{
    chars_of, contains, first_chars, is_blank, is_blank_text, last_segment, last_segment_start,
    string_of_range, strings_view, take_chars, text_is, trim_bounds, trimmed,
};
use vstd::prelude::*;

verus! {

/// The separator `" - "`.
pub open spec fn dash_separator() -> Seq<char> {
    seq![' ', '-', ' ']
}

/// The separator `" | "`.
pub open spec fn bar_separator() -> Seq<char> {
    seq![' ', '|', ' ']
}

/// The separator `" @ "`.
pub open spec fn at_separator() -> Seq<char> {
    seq![' ', '@', ' ']
}

/// The company that a title names behind a separator: the trimmed last
/// segment of the title split at the first of `" - "`, `" | "`, `" @ "` that
/// occurs in it.
pub open spec fn company_from_title(title: Seq<char>) -> Option<Seq<char>> {
    if contains(title, dash_separator()) {
        Some(trimmed(last_segment(title, dash_separator())))
    } else if contains(title, bar_separator()) {
        Some(trimmed(last_segment(title, bar_separator())))
    } else if contains(title, at_separator()) {
        Some(trimmed(last_segment(title, at_separator())))
    } else {
        None
    }
}

/// The trimmed last segment of `chars` split at `sep`, where `sep` occurs.
fn segment_behind(chars: &Vec<char>, sep: &Vec<char>) -> (r: Option<String>)
    requires
        sep@.len() > 0,
    ensures
        option_view(r) == (if contains(chars@, sep@) {
            Some(trimmed(last_segment(chars@, sep@)))
        } else {
            None
        }),
{
    let start = last_segment_start(chars, sep);
    if start > 0 {
        let (from, to) = trim_bounds(chars, start, chars.len());
        Some(string_of_range(chars, from, to))
    } else {
        None
    }
}

/// Splits a company name off a title: tries the separators `" - "`,
/// `" | "`, `" @ "` in this order and returns the trimmed last segment for
/// the first of them that occurs.
pub fn split_company_from_title(value: &str) -> (r: Option<String>)
    ensures
        option_view(r) == company_from_title(value@),
{
    let chars = chars_of(value);
    let dash: Vec<char> = vec![' ', '-', ' '];
    let bar: Vec<char> = vec![' ', '|', ' '];
    let at: Vec<char> = vec![' ', '@', ' '];
    assert(dash@ =~= dash_separator());
    assert(bar@ =~= bar_separator());
    assert(at@ =~= at_separator());
    match segment_behind(&chars, &dash) {
        Some(company) => Some(company),
        None => match segment_behind(&chars, &bar) {
            Some(company) => Some(company),
            None => segment_behind(&chars, &at),
        },
    }
}

/// The fields of a listing, drawn from a scraped page.
#[derive(Debug)]
pub struct ExtractedListing {
    pub title: Option<String>,
    pub company: Option<String>,
    pub location: Option<String>,
    pub text: String,
    pub raw_excerpt: Option<String>,
}

/// The mathematical model of `ExtractedListing`.
pub struct ListingModel {
    pub title: Option<Seq<char>>,
    pub company: Option<Seq<char>>,
    pub location: Option<Seq<char>>,
    pub text: Seq<char>,
    pub raw_excerpt: Option<Seq<char>>,
}

impl View for ExtractedListing {
    type V = ListingModel;

    open spec fn view(&self) -> ListingModel {
        ListingModel {
            title: option_view(self.title),
            company: option_view(self.company),
            location: option_view(self.location),
            text: self.text@,
            raw_excerpt: option_view(self.raw_excerpt),
        }
    }
}

/// The number of characters that an excerpt may hold.
pub const EXCERPT_CHARS: usize = 400;

/// The selector of the elements that may hold the title.
pub open spec fn heading_selector() -> Seq<char> {
    "h1"@
}

/// The selector of the elements that may name the company.
pub open spec fn meta_selector() -> Seq<char> {
    "meta"@
}

/// The attributes that are read off a `meta` element, in the order of a
/// row's places.
pub open spec fn meta_names() -> Seq<Seq<char>> {
    seq!["property"@, "name"@, "content"@]
}

/// The pattern of a location: the word `Location`, a colon or whitespace,
/// then 3 to 60 letters, digits, spaces or `,./-`, which group 1 captures.
pub open spec fn location_pattern() -> Seq<char> {
    "Location[:\\s]+([A-Za-z0-9 ,./-]{3,60})"@
}

/// The title: the text of the first heading unless there is none or it is
/// blank, else the fallback unless it is blank.
pub open spec fn title_of(headings: Option<Seq<Seq<char>>>, fallback: Seq<char>) -> Option<
    Seq<char>,
> {
    if headings is Some && headings->0.len() > 0 && !is_blank(headings->0[0]) {
        Some(headings->0[0])
    } else if is_blank(fallback) {
        None
    } else {
        Some(fallback)
    }
}

/// What stands at place `i` of a row; nothing where the row is too short.
pub open spec fn cell(row: Seq<Option<Seq<char>>>, i: int) -> Option<Seq<char>> {
    if 0 <= i < row.len() {
        row[i]
    } else {
        None
    }
}

/// The key of a `meta` element: its `property`, else its `name`, else the
/// empty text.
pub open spec fn row_key(row: Seq<Option<Seq<char>>>) -> Seq<char> {
    match cell(row, 0) {
        Some(property) => property,
        None => match cell(row, 1) {
            Some(name) => name,
            None => Seq::empty(),
        },
    }
}

/// `key` is one of the keys under which a page names its company.
pub open spec fn is_company_key(key: Seq<char>) -> bool {
    key == "og:site_name"@ || key == "application-name"@ || key == "company"@
}

/// The company that one `meta` element names: its `content`, where its key
/// is a company key.
pub open spec fn company_in_row(row: Seq<Option<Seq<char>>>) -> Option<Seq<char>> {
    if is_company_key(row_key(row)) {
        cell(row, 2)
    } else {
        None
    }
}

/// The company that the first of the `meta` elements to name one names.
pub open spec fn company_in_meta(rows: Seq<Seq<Option<Seq<char>>>>) -> Option<Seq<char>>
    decreases rows.len(),
{
    if rows.len() == 0 {
        None
    } else if company_in_row(rows[0]) is Some {
        company_in_row(rows[0])
    } else {
        company_in_meta(rows.subrange(1, rows.len() as int))
    }
}

/// The company that the `meta` elements name, where the selector was one.
pub open spec fn company_in_page(meta: Option<Seq<Seq<Option<Seq<char>>>>>) -> Option<Seq<char>> {
    match meta {
        Some(rows) => company_in_meta(rows),
        None => None,
    }
}

/// The company: what the `meta` elements name, else what the title names
/// behind a separator.
pub open spec fn company_of(
    meta: Option<Seq<Seq<Option<Seq<char>>>>>,
    title: Option<Seq<char>>,
) -> Option<Seq<char>> {
    if company_in_page(meta) is Some {
        company_in_page(meta)
    } else {
        match title {
            Some(t) => company_from_title(t),
            None => None,
        }
    }
}

/// The location: the trimmed capture, unless there is none or nothing is
/// left of it.
pub open spec fn location_of(capture: Option<Seq<char>>) -> Option<Seq<char>> {
    match capture {
        Some(c) if trimmed(c).len() > 0 => Some(trimmed(c)),
        _ => None,
    }
}

/// The excerpt: the first 400 characters of the text, all of a text that
/// has no more, nothing for an empty text.
pub open spec fn excerpt_of(text: Seq<char>) -> Option<Seq<char>> {
    if text.len() == 0 {
        None
    } else {
        Some(first_chars(text, EXCERPT_CHARS as nat))
    }
}

/// The listing that the parts of a page give.
pub open spec fn listing_of(
    headings: Option<Seq<Seq<char>>>,
    meta: Option<Seq<Seq<Option<Seq<char>>>>>,
    capture: Option<Seq<char>>,
    text: Seq<char>,
    fallback: Seq<char>,
) -> ListingModel {
    ListingModel {
        title: title_of(headings, fallback),
        company: company_of(meta, title_of(headings, fallback)),
        location: location_of(capture),
        text: text,
        raw_excerpt: excerpt_of(text),
    }
}

/// The listing that a page gives: its markup, its plain text and the title
/// to fall back on.
pub open spec fn extraction_of(html: Seq<char>, text: Seq<char>, fallback: Seq<char>)
    -> ListingModel {
    listing_of(
        selected_texts(html, heading_selector()),
        selected_attributes(html, meta_selector(), meta_names()),
        first_capture(location_pattern(), text, 1),
        text,
        fallback,
    )
}

/// The title of a listing, from the texts of the page's headings and the
/// fallback title.
pub fn extract_title(headings: &Option<Vec<String>>, default_title: &str) -> (r: Option<String>)
    ensures
        option_view(r) == title_of(option_texts_view(*headings), default_title@),
{
    match headings {
        Some(texts) => {
            if texts.len() > 0 && !is_blank_text(texts[0].as_str()) {
                return Some(texts[0].clone());
            }
        },
        None => {},
    }
    if is_blank_text(default_title) {
        None
    } else {
        Some(default_title.to_owned())
    }
}

/// What stands at place `i` of a row.
fn cell_of(row: &Vec<Option<String>>, i: usize) -> (r: Option<&String>)
    ensures
        match r {
            Some(s) => cell(row_view(row@), i as int) == Some(s@),
            None => cell(row_view(row@), i as int) is None,
        },
{
    if i < row.len() {
        match &row[i] {
            Some(s) => Some(s),
            None => None,
        }
    } else {
        None
    }
}

/// The company that one `meta` element names.
fn company_from_row(row: &Vec<Option<String>>) -> (r: Option<String>)
    ensures
        option_view(r) == company_in_row(row_view(row@)),
{
    let empty = String::new();
    let key: &String = match cell_of(row, 0) {
        Some(property) => property,
        None => match cell_of(row, 1) {
            Some(name) => name,
            None => &empty,
        },
    };
    if text_is(key.as_str(), "og:site_name") || text_is(key.as_str(), "application-name")
        || text_is(key.as_str(), "company") {
        match cell_of(row, 2) {
            Some(content) => Some(content.clone()),
            None => None,
        }
    } else {
        None
    }
}

/// The company that the `meta` elements of a page name: the `content` of
/// the first of them whose `property`, or else `name`, is `og:site_name`,
/// `application-name` or `company`, and which has a `content`.
pub fn company_from_meta(meta: &Option<Vec<Vec<Option<String>>>>) -> (r: Option<String>)
    ensures
        option_view(r) == company_in_page(option_rows_view(*meta)),
{
    match meta {
        Some(rows) => {
            let ghost all = rows_view(rows@);
            let mut i: usize = 0;
            assert(all.subrange(0, all.len() as int) =~= all);
            while i < rows.len()
                invariant
                    i <= rows@.len(),
                    all == rows_view(rows@),
                    option_rows_view(*meta) == Some(all),
                    company_in_meta(all) == company_in_meta(
                        all.subrange(i as int, all.len() as int),
                    ),
                decreases rows@.len() - i,
            {
                let ghost rest = all.subrange(i as int, all.len() as int);
                assert(rest[0] == row_view(rows@[i as int]@));
                assert(rest.subrange(1, rest.len() as int) =~= all.subrange(
                    i + 1,
                    all.len() as int,
                ));
                match company_from_row(&rows[i]) {
                    Some(company) => {
                        return Some(company);
                    },
                    None => {},
                }
                i += 1;
            }
            None
        },
        None => None,
    }
}

/// The location of a listing, from what the location pattern captured.
pub fn location_from_capture(capture: &Option<String>) -> (r: Option<String>)
    ensures
        option_view(r) == location_of(option_view(*capture)),
{
    match capture {
        Some(found) => {
            let chars = chars_of(found.as_str());
            assert(chars@.subrange(0, chars@.len() as int) =~= chars@);
            let (start, end) = trim_bounds(&chars, 0, chars.len());
            if start == end {
                None
            } else {
                Some(string_of_range(&chars, start, end))
            }
        },
        None => None,
    }
}

/// The excerpt of a text: its first 400 characters, all of a text that has
/// no more, nothing for an empty text.
pub fn excerpt(text: &str) -> (r: Option<String>)
    ensures
        option_view(r) == excerpt_of(text@),
{
    if text.is_empty() {
        None
    } else {
        Some(take_chars(text, EXCERPT_CHARS))
    }
}

/// Puts a listing together from the parts of a page: the texts of its
/// headings, the attribute rows of its `meta` elements, what the location
/// pattern captured in its text, the text and the fallback title.
pub fn assemble_listing(
    headings: &Option<Vec<String>>,
    meta: &Option<Vec<Vec<Option<String>>>>,
    capture: &Option<String>,
    text: &str,
    default_title: &str,
) -> (r: ExtractedListing)
    ensures
        r@ == listing_of(
            option_texts_view(*headings),
            option_rows_view(*meta),
            option_view(*capture),
            text@,
            default_title@,
        ),
{
    let title = extract_title(headings, default_title);
    let company = match company_from_meta(meta) {
        Some(company) => Some(company),
        None => match &title {
            Some(t) => split_company_from_title(t.as_str()),
            None => None,
        },
    };
    ExtractedListing {
        title,
        company,
        location: location_from_capture(capture),
        text: text.to_owned(),
        raw_excerpt: excerpt(text),
    }
}

/// The company that the `meta` elements of a page name.
pub fn extract_company(html: &str) -> (r: Option<String>)
    ensures
        option_view(r) == company_in_page(
            selected_attributes(html@, meta_selector(), meta_names()),
        ),
{
    let meta = select_attributes(html, "meta", &meta_attribute_names());
    company_from_meta(&meta)
}

/// The location that a text states behind the word `Location`.
pub fn extract_location(text: &str) -> (r: Option<String>)
    ensures
        option_view(r) == location_of(first_capture(location_pattern(), text@, 1)),
{
    let capture = capture_first("Location[:\\s]+([A-Za-z0-9 ,./-]{3,60})", text, 1);
    location_from_capture(&capture)
}

/// The names of the attributes that are read off a `meta` element.
fn meta_attribute_names() -> (r: Vec<String>)
    ensures
        strings_view(r@) == meta_names(),
{
    let names: Vec<String> = vec!["property".to_owned(), "name".to_owned(), "content".to_owned()];
    assert(strings_view(names@) =~= meta_names());
    names
}

/// Draws the fields of a listing from a page: its markup, its plain text
/// and the title to fall back on.
pub fn extract_listing(html: &str, text: &str, default_title: &str) -> (r: ExtractedListing)
    ensures
        r@ == extraction_of(html@, text@, default_title@),
{
    let headings = select_texts(html, "h1");
    let meta = select_attributes(html, "meta", &meta_attribute_names());
    let capture = capture_first("Location[:\\s]+([A-Za-z0-9 ,./-]{3,60})", text, 1);
    assemble_listing(&headings, &meta, &capture, text, default_title)
}

} // verus!
