//! The decisions of one run: fetch the quote page, read the range, compute both
//! strikes and identifiers, then publish four values in a fixed order, stopping
//! at the first failure.
//!
//! The fetch and the publish calls are made by the caller. A `Run` is told what
//! each of them gave and answers with the next thing to do.

use vstd::prelude::*;
use crate::calendar::{expiry_is_first_expiry_weekday, FIRST_DAY, LAST_DAY};
use crate::extract::{extract_range, extract_spec, range_selector, selected_texts, PipelineError};
use crate::instrument::int_text;
use crate::strike::{PriceRange, Side};

verus! {

/// The four published values.
#[derive(Debug)]
pub struct Quote {
    pub call_strike: String,
    pub put_strike: String,
    pub call_instrument: String,
    pub put_instrument: String,
}

/// What the caller is to do next.
#[derive(Debug)]
pub enum Action {
    /// Publish `value` under `key`, then report with `Run::on_published`.
    Publish { key: String, value: String },
    /// The run is complete: all four values were published.
    Finish(Quote),
    /// The run ends with this error.
    Fail(PipelineError),
}

/// Where a run stands.
#[derive(Clone, Copy, Debug, PartialEq, Eq, Structural)]
pub enum Stage {
    Fetching,
    Publishing,
    Finished,
    Failed,
}

/// How many values a run publishes.
pub const PUBLISH_COUNT: usize = 4;

/// One run of the pipeline.
#[derive(Debug)]
pub struct Run {
    pub stage: Stage,
    /// The computed values, once the page has been read.
    pub quote: Quote,
    /// How many publish calls have succeeded.
    pub sent: usize,
}

/// `q` holds the strikes and identifiers of `range` for the expiry after `today`.
pub open spec fn quote_matches(q: Quote, range: PriceRange, today: int) -> bool {
    &&& q.call_strike@ == int_text(range.strike_spec(Side::Call))
    &&& q.put_strike@ == int_text(range.strike_spec(Side::Put))
    &&& q.call_instrument@ == range.instrument_spec(Side::Call, today)
    &&& q.put_instrument@ == range.instrument_spec(Side::Put, today)
}

pub open spec fn same_quote(a: Quote, b: Quote) -> bool {
    &&& a.call_strike@ == b.call_strike@
    &&& a.put_strike@ == b.put_strike@
    &&& a.call_instrument@ == b.call_instrument@
    &&& a.put_instrument@ == b.put_instrument@
}

/// The `i`-th publish call of a run, as key and value: call strike, put strike,
/// call identifier, put identifier.
pub open spec fn entry(q: Quote, i: int) -> (Seq<char>, Seq<char>) {
    if i == 0 {
        ("ce_strike"@, q.call_strike@)
    } else if i == 1 {
        ("pe_strike"@, q.put_strike@)
    } else if i == 2 {
        ("ce_instru"@, q.call_instrument@)
    } else {
        ("pe_instru"@, q.put_instrument@)
    }
}

pub open spec fn publishes(a: Action, e: (Seq<char>, Seq<char>)) -> bool {
    match a {
        Action::Publish { key, value } => key@ == e.0 && value@ == e.1,
        _ => false,
    }
}

pub open spec fn finishes(a: Action, q: Quote) -> bool {
    match a {
        Action::Finish(r) => same_quote(r, q),
        _ => false,
    }
}

pub open spec fn fails(a: Action, e: PipelineError) -> bool {
    match a {
        Action::Fail(x) => x == e,
        _ => false,
    }
}

/// The range that a fetch gives: `None` is a failed fetch.
pub open spec fn page_range(page: Option<Seq<char>>) -> Result<PriceRange, PipelineError> {
    match page {
        None => Err(PipelineError::FetchError),
        Some(html) => extract_spec(html),
    }
}

fn copy_quote(q: &Quote) -> (r: Quote)
    ensures
        same_quote(r, *q),
{
    Quote {
        call_strike: q.call_strike.clone(),
        put_strike: q.put_strike.clone(),
        call_instrument: q.call_instrument.clone(),
        put_instrument: q.put_instrument.clone(),
    }
}

fn publish_entry(q: &Quote, i: usize) -> (a: Action)
    requires
        i < PUBLISH_COUNT,
    ensures
        publishes(a, entry(*q, i as int)),
{
    if i == 0 {
        Action::Publish { key: String::from_str("ce_strike"), value: q.call_strike.clone() }
    } else if i == 1 {
        Action::Publish { key: String::from_str("pe_strike"), value: q.put_strike.clone() }
    } else if i == 2 {
        Action::Publish { key: String::from_str("ce_instru"), value: q.call_instrument.clone() }
    } else {
        Action::Publish { key: String::from_str("pe_instru"), value: q.put_instrument.clone() }
    }
}

impl Run {
    pub open spec fn wf(self) -> bool {
        &&& self.sent <= PUBLISH_COUNT
        &&& self.stage == Stage::Fetching ==> self.sent == 0
        &&& self.stage == Stage::Publishing ==> self.sent < PUBLISH_COUNT
        &&& self.stage == Stage::Finished ==> self.sent == PUBLISH_COUNT
    }

    /// A run that has not fetched anything yet.
    pub fn new() -> (r: Run)
        ensures
            r.wf(),
            r.stage == Stage::Fetching,
            r.sent == 0,
    {
        Run {
            stage: Stage::Fetching,
            quote: Quote {
                call_strike: String::new(),
                put_strike: String::new(),
                call_instrument: String::new(),
                put_instrument: String::new(),
            },
            sent: 0,
        }
    }

    /// Takes what the fetch gave (`None` where it failed) on day `today`, and
    /// answers with the first publish call, or with the error that ends the run.
    pub fn on_page(&mut self, page: Option<String>, today: i32) -> (a: Action)
        requires
            old(self).stage == Stage::Fetching,
            FIRST_DAY <= today <= LAST_DAY - 6,
        ensures
            final(self).wf(),
            final(self).sent == 0,
            match page_range(
                match page {
                    Some(p) => Some(p@),
                    None => None,
                },
            ) {
                Err(e) => final(self).stage == Stage::Failed && fails(a, e),
                Ok(range) => final(self).stage == Stage::Publishing
                    && quote_matches(final(self).quote, range, today as int)
                    && publishes(a, entry(final(self).quote, 0)),
            },
    {
        self.sent = 0;
        let html = match page {
            None => {
                self.stage = Stage::Failed;
                return Action::Fail(PipelineError::FetchError);
            },
            Some(html) => html,
        };
        let range = match extract_range(html.as_str()) {
            Err(e) => {
                self.stage = Stage::Failed;
                return Action::Fail(e);
            },
            Ok(range) => range,
        };
        proof {
            expiry_is_first_expiry_weekday(today as int);
        }
        let call = range.instrument(Side::Call, today);
        let put = range.instrument(Side::Put, today);
        match (call, put) {
            (Some((call_instrument, call_strike)), Some((put_instrument, put_strike))) => {
                self.quote = Quote { call_strike, put_strike, call_instrument, put_instrument };
                self.stage = Stage::Publishing;
                publish_entry(&self.quote, 0)
            },
            _ => {
                assert(false);
                self.stage = Stage::Failed;
                Action::Fail(PipelineError::FetchError)
            },
        }
    }

    /// Takes the outcome of the publish call last asked for, and answers with the
    /// next one, with the finished quote after the fourth, or with `PublishError`
    /// at the first failure. Values already published stay published.
    pub fn on_published(&mut self, ok: bool) -> (a: Action)
        requires
            old(self).wf(),
            old(self).stage == Stage::Publishing,
        ensures
            final(self).wf(),
            final(self).quote == old(self).quote,
            !ok ==> final(self).stage == Stage::Failed && final(self).sent == old(self).sent
                && fails(a, PipelineError::PublishError),
            ok ==> final(self).sent == old(self).sent + 1,
            ok && final(self).sent < PUBLISH_COUNT ==> final(self).stage == Stage::Publishing
                && publishes(a, entry(final(self).quote, final(self).sent as int)),
            ok && final(self).sent == PUBLISH_COUNT ==> final(self).stage == Stage::Finished
                && finishes(a, final(self).quote),
    {
        if !ok {
            self.stage = Stage::Failed;
            return Action::Fail(PipelineError::PublishError);
        }
        self.sent = self.sent + 1;
        if self.sent < PUBLISH_COUNT {
            publish_entry(&self.quote, self.sent)
        } else {
            self.stage = Stage::Finished;
            Action::Finish(copy_quote(&self.quote))
        }
    }
}

/// A page with fewer than two elements matching the range selector ends the run
/// with `SelectorError`, before any value is published.
pub proof fn too_few_matches_is_selector_error(html: Seq<char>, texts: Seq<Seq<char>>)
    requires
        selected_texts(html, range_selector()) == Some(texts),
        texts.len() < 2,
    ensures
        page_range(Some(html)) == Err::<PriceRange, PipelineError>(PipelineError::SelectorError),
{
}

} // verus!
