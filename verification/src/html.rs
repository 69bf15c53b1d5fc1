//! What a page holds, as the `scraper` crate reads it.
//!
//! Nothing here is proved of `scraper`: each result is given a name, and the
//! functions that use a result take it as an argument.

use crate::text::strings_view;
use vstd::prelude::*;

verus! {

/// Name for the texts of the elements that a selector picks from a page, in
/// document order; the text of an element is that of its descending text
/// nodes in a row. `None` where the selector is not one.
pub uninterp spec fn selected_texts(html: Seq<char>, selector: Seq<char>) -> Option<
    Seq<Seq<char>>,
>;

/// Name for the values of the attributes `names` of the elements that a
/// selector picks from a page, one row for each element in document order,
/// one place in a row for each name. `None` where the selector is not one.
pub uninterp spec fn selected_attributes(
    html: Seq<char>,
    selector: Seq<char>,
    names: Seq<Seq<char>>,
) -> Option<Seq<Seq<Option<Seq<char>>>>>;

/// Name for the text nodes under the root element of a page, in document
/// order.
pub uninterp spec fn document_texts(html: Seq<char>) -> Seq<Seq<char>>;

/// The model of a row of optional strings.
pub open spec fn row_view(row: Seq<Option<String>>) -> Seq<Option<Seq<char>>> {
    Seq::new(
        row.len(),
        |i: int|
            match row[i] {
                Some(s) => Some(s@),
                None => None,
            },
    )
}

/// The model of rows of optional strings.
pub open spec fn rows_view(rows: Seq<Vec<Option<String>>>) -> Seq<Seq<Option<Seq<char>>>> {
    Seq::new(rows.len(), |i: int| row_view(rows[i]@))
}

/// The model of optional texts.
pub open spec fn option_texts_view(texts: Option<Vec<String>>) -> Option<Seq<Seq<char>>> {
    match texts {
        Some(t) => Some(strings_view(t@)),
        None => None,
    }
}

/// The model of optional rows.
pub open spec fn option_rows_view(rows: Option<Vec<Vec<Option<String>>>>) -> Option<
    Seq<Seq<Option<Seq<char>>>>,
> {
    match rows {
        Some(r) => Some(rows_view(r@)),
        None => None,
    }
}

/// Parses the selector with `scraper::Selector::parse` and the page with
/// `scraper::Html::parse_document`, then collects the text of each element
/// that `select` yields. The result depends on the two texts alone.
#[verifier::external_body]
pub(crate) fn select_texts(html: &str, selector: &str) -> (r: Option<Vec<String>>)
    ensures
        option_texts_view(r) == selected_texts(html@, selector@),
{
    let selector = scraper::Selector::parse(selector).ok()?;
    let document = scraper::Html::parse_document(html);
    Some(document.select(&selector).map(|element| element.text().collect()).collect())
}

/// Parses the selector and the page as `select_texts` does, then asks each
/// element that `select` yields for each of `names` with `attr`. The result
/// depends on the texts and the names alone.
#[verifier::external_body]
pub(crate) fn select_attributes(html: &str, selector: &str, names: &Vec<String>) -> (r: Option<
    Vec<Vec<Option<String>>>,
>)
    ensures
        option_rows_view(r) == selected_attributes(html@, selector@, strings_view(names@)),
{
    let selector = scraper::Selector::parse(selector).ok()?;
    let document = scraper::Html::parse_document(html);
    let row = |element: scraper::ElementRef| {
        names.iter().map(|name| element.value().attr(name).map(str::to_string)).collect()
    };
    Some(document.select(&selector).map(row).collect())
}

/// Parses the page with `scraper::Html::parse_document` and collects the
/// text nodes under `root_element`, which a parsed document always has. The
/// result depends on the page alone.
#[verifier::external_body]
pub(crate) fn root_texts(html: &str) -> (r: Vec<String>)
    ensures
        strings_view(r@) == document_texts(html@),
{
    scraper::Html::parse_document(html).root_element().text().map(str::to_string).collect()
}

} // verus!
