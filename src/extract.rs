//! Reading the day's range out of the fetched quote page.

use vstd::prelude::*;
use crate::price::{parse_number, parse_price};
use crate::strike::PriceRange;
use crate::text::{chars_of, remove_char, split_on_separator, split_pair, trim, trimmed, without};

verus! {

/// Why a run ended without publishing everything.
#[derive(Clone, Copy, Debug, PartialEq, Eq, Structural)]
pub enum PipelineError {
    /// The page could not be fetched, or the server answered with a failure status.
    FetchError,
    /// The page holds fewer than two elements that match the range selector.
    SelectorError,
    /// The range text does not split into exactly two pieces.
    ExtractionError,
    /// A piece of the range text is not a number.
    ParseError,
    /// A publish call failed.
    PublishError,
}

/// Which of the matching elements holds the range: the second.
pub const RANGE_ELEMENT: usize = 1;

/// The CSS selector of the page's price-range elements, `div.P6K39c`.
pub open spec fn range_selector() -> Seq<char> {
    seq!['d', 'i', 'v', '.', 'P', '6', 'K', '3', '9', 'c']
}

/// The texts of the elements of `html` that `selector` matches, in document order,
/// as scraper finds them; `None` where scraper does not accept the selector.
pub uninterp spec fn selected_texts(html: Seq<char>, selector: Seq<char>) -> Option<Seq<Seq<char>>>;

/// Relies on scraper's `Selector::parse`, `Html::parse_document`, `Html::select`
/// and `ElementRef::text`: the text of each matching element, in document order.
/// What is found depends on the document and the selector alone.
#[verifier::external_body]
fn select_texts(html: &str, selector: &str) -> (r: Option<Vec<String>>)
    ensures
        match selected_texts(html@, selector@) {
            None => r is None,
            Some(t) => r is Some && r->0@.len() == t.len()
                && forall|i: int| 0 <= i < t.len() ==> (#[trigger] r->0@[i])@ == t[i],
        },
{
    let selector = match scraper::Selector::parse(selector) {
        Ok(s) => s,
        Err(_) => return None,
    };
    let document = scraper::Html::parse_document(html);
    let mut texts = Vec::new();
    for element in document.select(&selector) {
        texts.push(element.text().collect::<String>());
    }
    Some(texts)
}

/// The range that a range text gives: trimmed, thousands separators dropped,
/// split on `" - "` into high and low.
pub open spec fn range_from_text_spec(text: Seq<char>) -> Result<PriceRange, PipelineError> {
    match split_pair(without(trimmed(text), ',')) {
        None => Err(PipelineError::ExtractionError),
        Some(pieces) => match (parse_price(pieces.0), parse_price(pieces.1)) {
            (Some(high), Some(low)) => Ok(PriceRange { high, low }),
            _ => Err(PipelineError::ParseError),
        },
    }
}

/// The range that the texts of the matching elements give: that of the second one.
pub open spec fn range_from_matches_spec(texts: Seq<Seq<char>>) -> Result<PriceRange, PipelineError> {
    if texts.len() <= RANGE_ELEMENT {
        Err(PipelineError::SelectorError)
    } else {
        range_from_text_spec(texts[RANGE_ELEMENT as int])
    }
}

/// The range that a page gives.
pub open spec fn extract_spec(html: Seq<char>) -> Result<PriceRange, PipelineError> {
    match selected_texts(html, range_selector()) {
        None => Err(PipelineError::SelectorError),
        Some(texts) => range_from_matches_spec(texts),
    }
}

/// Reads high and low, in that order, from a range text such as `"25,123.40 - 24,876.60"`.
pub fn range_from_text(text: &str) -> (r: Result<PriceRange, PipelineError>)
    ensures
        r == range_from_text_spec(text@),
        r is Ok ==> r->Ok_0.wf(),
{
    let cleaned = remove_char(&trim(&chars_of(text)), ',');
    match split_on_separator(&cleaned) {
        None => Err(PipelineError::ExtractionError),
        Some((high_text, low_text)) => match (parse_number(&high_text), parse_number(&low_text)) {
            (Some(high), Some(low)) => Ok(PriceRange { high, low }),
            _ => Err(PipelineError::ParseError),
        },
    }
}

/// Reads the range from the texts of the matching elements, in document order.
pub fn range_from_matches(texts: &Vec<String>) -> (r: Result<PriceRange, PipelineError>)
    ensures
        r == range_from_matches_spec(texts@.map_values(|s: String| s@)),
        r is Ok ==> r->Ok_0.wf(),
{
    if texts.len() <= RANGE_ELEMENT {
        Err(PipelineError::SelectorError)
    } else {
        range_from_text(texts[RANGE_ELEMENT].as_str())
    }
}

/// Reads the day's range from the quote page's HTML.
pub fn extract_range(html: &str) -> (r: Result<PriceRange, PipelineError>)
    ensures
        r == extract_spec(html@),
        r is Ok ==> r->Ok_0.wf(),
{
    proof {
        reveal_strlit("div.P6K39c");
    }
    assert("div.P6K39c"@ == range_selector());
    match select_texts(html, "div.P6K39c") {
        None => Err(PipelineError::SelectorError),
        Some(texts) => {
            assert(texts@.map_values(|s: String| s@) =~= selected_texts(html@, range_selector())->0);
            range_from_matches(&texts)
        },
    }
}

} // verus!
