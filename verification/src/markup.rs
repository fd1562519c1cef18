//! Queries on HTML documents, answered by the `scraper` crate.
//!
//! Nothing in this module is proved. Each function parses the document it is
//! given, runs CSS selectors on it and hands back plain strings. What a query
//! finds is a function of the document text and the selector texts alone, and
//! the contracts say no more than that: they give the answer a name.

use scraper::Html;
use scraper::Selector;
use vstd::prelude::*;

verus! {

/// For each selector, the text below the first element of `html` that it
/// matches, or `None` where it matches nothing. The whole is `None` when one of
/// the selectors is not valid CSS.
pub uninterp spec fn document_texts(html: Seq<char>, selectors: Seq<Seq<char>>) -> Option<
    Seq<Option<Seq<char>>>,
>;

/// For each element of `html` that `row` matches, in document order, and for
/// each selector of `fields`: the text below the first descendant of that
/// element that the selector matches, or `None` where it matches none. The whole
/// is `None` when `row` or one of `fields` is not valid CSS.
pub uninterp spec fn row_texts(html: Seq<char>, row: Seq<char>, fields: Seq<Seq<char>>) -> Option<
    Seq<Seq<Option<Seq<char>>>>,
>;

/// For each element of `html` that `outer` matches, in document order, and for
/// each of its descendants that `inner` matches, in document order: the value
/// of the descendant's attribute `attr`, or `None` where it has none. The whole
/// is `None` when `outer` or `inner` is not valid CSS.
pub uninterp spec fn nested_attrs(
    html: Seq<char>,
    outer: Seq<char>,
    inner: Seq<char>,
    attr: Seq<char>,
) -> Option<Seq<Seq<Option<Seq<char>>>>>;

/// Runs `Selector::parse` on each of `selectors`, `Html::parse_document` on
/// `html`, and for each selector `Html::select`, taking the first match and
/// joining the pieces of `ElementRef::text`. One answer per selector.
#[verifier::external_body]
pub(crate) fn select_texts(html: &str, selectors: &Vec<&str>) -> (found: Option<
    Vec<Option<String>>,
>)
    ensures
        found.deep_view() == document_texts(html@, selectors.deep_view()),
{
    let parsed: Option<Vec<Selector>> = selectors.iter().map(|s| Selector::parse(s).ok()).collect();
    let parsed = parsed?;
    let dom = Html::parse_document(html);
    Some(parsed.iter().map(|s| dom.select(s).next().map(|e| e.text().collect())).collect())
}

/// Runs `Selector::parse` on `row` and on each of `fields`,
/// `Html::parse_document` on `html`, `Html::select` with `row`, and inside each
/// match `ElementRef::select` with each field selector, taking the first match
/// and joining the pieces of `ElementRef::text`. One answer per field in each
/// row.
#[verifier::external_body]
pub(crate) fn select_rows(html: &str, row: &str, fields: &Vec<&str>) -> (found: Option<
    Vec<Vec<Option<String>>>,
>)
    ensures
        found.deep_view() == row_texts(html@, row@, fields.deep_view()),
{
    let row = Selector::parse(row).ok()?;
    let parsed: Option<Vec<Selector>> = fields.iter().map(|s| Selector::parse(s).ok()).collect();
    let parsed = parsed?;
    let dom = Html::parse_document(html);
    let cells = |el: scraper::ElementRef| {
        parsed.iter().map(|s| el.select(s).next().map(|e| e.text().collect())).collect()
    };
    Some(dom.select(&row).map(cells).collect())
}

/// Runs `Selector::parse` on `outer` and `inner`, `Html::parse_document` on
/// `html`, `Html::select` with `outer`, and inside each match
/// `ElementRef::select` with `inner`, reading `attr` from each match with
/// `ElementRef::attr`.
#[verifier::external_body]
pub(crate) fn select_attrs(html: &str, outer: &str, inner: &str, attr: &str) -> (found: Option<
    Vec<Vec<Option<String>>>,
>)
    ensures
        found.deep_view() == nested_attrs(html@, outer@, inner@, attr@),
{
    let outer = Selector::parse(outer).ok()?;
    let inner = Selector::parse(inner).ok()?;
    let dom = Html::parse_document(html);
    let values = |el: scraper::ElementRef| {
        el.select(&inner).map(|e| e.attr(attr).map(|v| v.to_string())).collect()
    };
    Some(dom.select(&outer).map(values).collect())
}

} // verus!
