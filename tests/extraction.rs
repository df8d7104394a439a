use nifty_strikes::extract::{extract_range, range_from_matches, range_from_text, PipelineError};
use nifty_strikes::price::{parse_number, Price};
use nifty_strikes::strike::PriceRange;

fn chars(s: &str) -> Vec<char> {
    s.chars().collect()
}

fn expected() -> PriceRange {
    PriceRange::new(Price::new(2512340, 2), Price::new(2487660, 2))
}

#[test]
fn extraction_success() {
    let texts = vec!["24,900.00".to_string(), "25,123.40 - 24,876.60".to_string()];
    assert_eq!(range_from_matches(&texts), Ok(expected()));
}

#[test]
fn extraction_from_page() {
    let html = "<html><body><div class=\"P6K39c\">24,900.00</div>\
                <div class=\"P6K39c\"> 25,123.40 - 24,876.60 </div></body></html>";
    assert_eq!(extract_range(html), Ok(expected()));
}

#[test]
fn extraction_failure_insufficient_matches() {
    let html = "<html><body><div class=\"P6K39c\">25,123.40 - 24,876.60</div></body></html>";
    assert_eq!(extract_range(html), Err(PipelineError::SelectorError));
    assert_eq!(range_from_matches(&vec![]), Err(PipelineError::SelectorError));
}

#[test]
fn extraction_failure_no_separator() {
    assert_eq!(range_from_text("25,123.40"), Err(PipelineError::ExtractionError));
    assert_eq!(range_from_text("1 - 2 - 3"), Err(PipelineError::ExtractionError));
    assert_eq!(range_from_text(""), Err(PipelineError::ExtractionError));
}

#[test]
fn extraction_failure_not_a_number() {
    assert_eq!(range_from_text("abc - 24,876.60"), Err(PipelineError::ParseError));
    assert_eq!(range_from_text("25123.40 - 1.2.3"), Err(PipelineError::ParseError));
    assert_eq!(range_from_text("- - 5"), Err(PipelineError::ParseError));
    assert_eq!(range_from_text(" - 5"), Err(PipelineError::ExtractionError));
}

#[test]
fn extraction_trims_whitespace() {
    assert_eq!(range_from_text("\n\t25,123.40 - 24,876.60\u{a0}"), Ok(expected()));
}

#[test]
fn number_forms() {
    assert_eq!(parse_number(&chars("25123.40")), Some(Price::new(2512340, 2)));
    assert_eq!(parse_number(&chars("-7")), Some(Price::new(-7, 0)));
    assert_eq!(parse_number(&chars("+7.")), Some(Price::new(7, 0)));
    assert_eq!(parse_number(&chars(".5")), Some(Price::new(5, 1)));
    assert_eq!(parse_number(&chars("")), None);
    assert_eq!(parse_number(&chars("-")), None);
    assert_eq!(parse_number(&chars(".")), None);
    assert_eq!(parse_number(&chars("1,0")), None);
    assert_eq!(parse_number(&chars("123456789012345678")), Some(Price::new(123456789012345678, 0)));
    assert_eq!(parse_number(&chars("1234567890123456789")), None);
}
