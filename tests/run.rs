use chrono::{Datelike, NaiveDate};
use nifty_strikes::extract::PipelineError;
use nifty_strikes::pipeline::{Action, Run, Stage};

const PAGE: &str = "<div class=\"P6K39c\">24,900.00</div><div class=\"P6K39c\">25,123.40 - 24,876.60</div>";

fn monday() -> i32 {
    NaiveDate::from_ymd_opt(2024, 7, 22).unwrap().num_days_from_ce()
}

fn key_value(a: &Action) -> (String, String) {
    match a {
        Action::Publish { key, value } => (key.clone(), value.clone()),
        other => panic!("expected a publish call, got {:?}", other),
    }
}

/// Drives a run against a publish target that answers with `outcomes`, in turn,
/// and records each publish call that was made.
fn drive(page: Option<&str>, outcomes: &[bool]) -> (Action, Vec<(String, String)>, Run) {
    let mut run = Run::new();
    let mut calls = Vec::new();
    let mut action = run.on_page(page.map(|p| p.to_string()), monday());
    let mut i = 0;
    while let Action::Publish { .. } = action {
        calls.push(key_value(&action));
        action = run.on_published(outcomes[i]);
        i += 1;
    }
    (action, calls, run)
}

#[test]
fn full_run_publishes_four_values_in_order() {
    let (action, calls, run) = drive(Some(PAGE), &[true, true, true, true]);
    let expected = vec![
        ("ce_strike".to_string(), "25100".to_string()),
        ("pe_strike".to_string(), "24900".to_string()),
        ("ce_instru".to_string(), "OPTIDX_NIFTY_25JUL2024_CE_25100".to_string()),
        ("pe_instru".to_string(), "OPTIDX_NIFTY_25JUL2024_PE_24900".to_string()),
    ];
    assert_eq!(calls, expected);
    match action {
        Action::Finish(q) => {
            assert_eq!(q.call_strike, "25100");
            assert_eq!(q.put_strike, "24900");
            assert_eq!(q.call_instrument, "OPTIDX_NIFTY_25JUL2024_CE_25100");
            assert_eq!(q.put_instrument, "OPTIDX_NIFTY_25JUL2024_PE_24900");
        }
        other => panic!("expected a finished run, got {:?}", other),
    }
    assert_eq!(run.stage, Stage::Finished);
    assert_eq!(run.sent, 4);
}

#[test]
fn partial_publish() {
    let (action, calls, run) = drive(Some(PAGE), &[true, true, true, false]);
    assert!(matches!(action, Action::Fail(PipelineError::PublishError)));
    assert_eq!(calls.len(), 4);
    assert_eq!(calls[0].0, "ce_strike");
    assert_eq!(calls[1].0, "pe_strike");
    assert_eq!(calls[2].0, "ce_instru");
    assert_eq!(run.sent, 3);
    assert_eq!(run.stage, Stage::Failed);
}

#[test]
fn first_publish_failure_stops_the_run() {
    let (action, calls, run) = drive(Some(PAGE), &[false]);
    assert!(matches!(action, Action::Fail(PipelineError::PublishError)));
    assert_eq!(calls.len(), 1);
    assert_eq!(run.sent, 0);
}

#[test]
fn insufficient_matches_publish_nothing() {
    let page = "<div class=\"P6K39c\">25,123.40 - 24,876.60</div>";
    let (action, calls, run) = drive(Some(page), &[]);
    assert!(matches!(action, Action::Fail(PipelineError::SelectorError)));
    assert!(calls.is_empty());
    assert_eq!(run.sent, 0);
    assert_eq!(run.stage, Stage::Failed);
}

#[test]
fn failed_fetch_publishes_nothing() {
    let (action, calls, _) = drive(None, &[]);
    assert!(matches!(action, Action::Fail(PipelineError::FetchError)));
    assert!(calls.is_empty());
}

#[test]
fn bad_range_text_publishes_nothing() {
    let page = "<div class=\"P6K39c\">x</div><div class=\"P6K39c\">25,123.40 to 24,876.60</div>";
    let (action, calls, _) = drive(Some(page), &[]);
    assert!(matches!(action, Action::Fail(PipelineError::ExtractionError)));
    assert!(calls.is_empty());
    let page = "<div class=\"P6K39c\">x</div><div class=\"P6K39c\">high - low</div>";
    let (action, calls, _) = drive(Some(page), &[]);
    assert!(matches!(action, Action::Fail(PipelineError::ParseError)));
    assert!(calls.is_empty());
}
