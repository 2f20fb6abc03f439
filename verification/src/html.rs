//! Selection of elements in HTML pages, done by the `scraper` crate.
use vstd::prelude::*;

verus! {

/// For the document parsed from `html`, the first text node of each element
/// that the CSS selector `selector` matches, in document order; `None` where
/// `selector` is not a valid selector.
pub uninterp spec fn document_texts(html: Seq<char>, selector: Seq<char>) -> Option<
    Seq<Option<Seq<char>>>,
>;

/// For the document parsed from `html`, the value of the attribute
/// `attribute` of each element that `selector` matches, in document order;
/// `None` where `selector` is not a valid selector.
pub uninterp spec fn document_attributes(
    html: Seq<char>,
    selector: Seq<char>,
    attribute: Seq<char>,
) -> Option<Seq<Option<Seq<char>>>>;

/// For the fragment parsed from `html`, one entry per element that
/// `row_selector` matches, in document order: the first text node of each of
/// its descendants that `cell_selector` matches; `None` where either selector
/// is not valid.
pub uninterp spec fn fragment_row_texts(
    html: Seq<char>,
    row_selector: Seq<char>,
    cell_selector: Seq<char>,
) -> Option<Seq<Seq<Option<Seq<char>>>>>;

/// Trusted: parses `selector` with `scraper::Selector::parse` and `html` with
/// `scraper::Html::parse_document`, then returns, for each element that
/// `scraper::Html::select` yields, the first item of `ElementRef::text`.
/// The contract only names the result (`document_texts`): the HTML parsing
/// and the CSS matching are scraper's.
#[verifier::external_body]
pub(crate) fn select_texts(html: &str, selector: &str) -> (res: Option<Vec<Option<String>>>)
    ensures
        res.deep_view() == document_texts(html@, selector@),
{
    let selector = scraper::Selector::parse(selector).ok()?;
    let document = scraper::Html::parse_document(html);
    let mut out = Vec::new();
    for element in document.select(&selector) {
        out.push(element.text().next().map(String::from));
    }
    Some(out)
}

/// Trusted: parses `selector` with `scraper::Selector::parse` and `html` with
/// `scraper::Html::parse_document`, then returns, for each element that
/// `scraper::Html::select` yields, `ElementRef::attr(attribute)`.
/// The contract only names the result (`document_attributes`).
#[verifier::external_body]
pub(crate) fn select_attributes(html: &str, selector: &str, attribute: &str) -> (res: Option<
    Vec<Option<String>>,
>)
    ensures
        res.deep_view() == document_attributes(html@, selector@, attribute@),
{
    let selector = scraper::Selector::parse(selector).ok()?;
    let document = scraper::Html::parse_document(html);
    let mut out = Vec::new();
    for element in document.select(&selector) {
        out.push(element.attr(attribute).map(String::from));
    }
    Some(out)
}

/// Trusted: parses both selectors with `scraper::Selector::parse` and `html`
/// with `scraper::Html::parse_fragment`; for each element that
/// `scraper::Html::select` yields for `row_selector`, returns the first item
/// of `ElementRef::text` of each element that `ElementRef::select` yields for
/// `cell_selector`.  The contract only names the result
/// (`fragment_row_texts`).
#[verifier::external_body]
pub(crate) fn select_row_texts(html: &str, row_selector: &str, cell_selector: &str) -> (res:
    Option<Vec<Vec<Option<String>>>>)
    ensures
        res.deep_view() == fragment_row_texts(html@, row_selector@, cell_selector@),
{
    let rows = scraper::Selector::parse(row_selector).ok()?;
    let cells = scraper::Selector::parse(cell_selector).ok()?;
    let fragment = scraper::Html::parse_fragment(html);
    let mut out = Vec::new();
    for row in fragment.select(&rows) {
        let mut texts = Vec::new();
        for cell in row.select(&cells) {
            texts.push(cell.text().next().map(String::from));
        }
        out.push(texts);
    }
    Some(out)
}

} // verus!
