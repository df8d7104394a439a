//! Option-instrument identifiers: `OPTIDX_NIFTY<expiry label><CE|PE>_<strike>`.

use vstd::prelude::*;
use crate::calendar::{expiry_label, expiry_of, day_text, upper_of, FIRST_DAY, LAST_DAY};
use crate::strike::{PriceRange, Side};
use crate::text::{chars_of, string_of};

verus! {

pub open spec fn digit_char(d: int) -> char {
    (48 + d) as char
}

/// The decimal digits of `n`, without leading zeros.
pub open spec fn nat_text(n: nat) -> Seq<char>
    decreases n,
{
    if n < 10 {
        seq![digit_char(n as int)]
    } else {
        nat_text(n / 10).push(digit_char((n % 10) as int))
    }
}

/// `v` written in decimal, with a leading `'-'` where it is negative.
pub open spec fn int_text(v: int) -> Seq<char> {
    if v < 0 {
        seq!['-'] + nat_text((-v) as nat)
    } else {
        nat_text(v as nat)
    }
}

/// The fixed start of every identifier: the instrument class and the index.
pub open spec fn prefix_text() -> Seq<char> {
    seq!['O', 'P', 'T', 'I', 'D', 'X', '_', 'N', 'I', 'F', 'T', 'Y']
}

/// `CE` for a call, `PE` for a put.
pub open spec fn side_code(side: Side) -> Seq<char> {
    match side {
        Side::Call => seq!['C', 'E'],
        Side::Put => seq!['P', 'E'],
    }
}

/// The identifier of the contract on `side` at `strike` that expires on the day labelled `label`.
pub open spec fn instrument_text(strike: int, side: Side, label: Seq<char>) -> Seq<char> {
    prefix_text() + label + side_code(side) + seq!['_'] + int_text(strike)
}

fn push_all(out: &mut Vec<char>, s: &Vec<char>)
    ensures
        final(out)@ == old(out)@ + s@,
{
    let mut i: usize = 0;
    while i < s.len()
        invariant
            i <= s@.len(),
            out@ == old(out)@ + s@.subrange(0, i as int),
        decreases s@.len() - i,
    {
        out.push(s[i]);
        i += 1;
    }
}

fn push_nat_text(out: &mut Vec<char>, n: u128)
    ensures
        final(out)@ == old(out)@ + nat_text(n as nat),
    decreases n,
{
    if n >= 10 {
        push_nat_text(out, n / 10);
    }
    out.push((48 + (n % 10) as u8) as char);
}

/// `v` written in decimal, as `i128::to_string` writes it.
pub fn int_to_text(v: i128) -> (r: Vec<char>)
    ensures
        r@ == int_text(v as int),
{
    let mut out: Vec<char> = Vec::new();
    if v < 0 {
        out.push('-');
        let m: u128 = if v == i128::MIN {
            170141183460469231731687303715884105728u128
        } else {
            (-v) as u128
        };
        push_nat_text(&mut out, m);
    } else {
        push_nat_text(&mut out, v as u128);
    }
    out
}

/// The identifier `OPTIDX_NIFTY<label><CE|PE>_<strike>`.
pub fn instrument_id(strike: i128, side: Side, label: &str) -> (r: String)
    ensures
        r@ == instrument_text(strike as int, side, label@),
{
    let mut out: Vec<char> = vec!['O', 'P', 'T', 'I', 'D', 'X', '_', 'N', 'I', 'F', 'T', 'Y'];
    push_all(&mut out, &chars_of(label));
    match side {
        Side::Call => {
            out.push('C');
        },
        Side::Put => {
            out.push('P');
        },
    }
    out.push('E');
    out.push('_');
    push_all(&mut out, &int_to_text(strike));
    assert(out@ == instrument_text(strike as int, side, label@));
    string_of(&out)
}

impl PriceRange {
    /// The identifier of the contract on `side`, for the expiry that follows `today`.
    pub open spec fn instrument_spec(self, side: Side, today: int) -> Seq<char> {
        instrument_text(self.strike_spec(side), side, upper_of(day_text(expiry_of(today))))
    }

    /// The identifier of the contract on `side` that expires on the next expiry
    /// weekday on or after day `today`, and its strike as text. `None` only where
    /// that expiry lies outside chrono's calendar.
    pub fn instrument(&self, side: Side, today: i32) -> (r: Option<(String, String)>)
        requires
            self.wf(),
        ensures
            r is Some ==> (r->0).0@ == self.instrument_spec(side, today as int)
                && (r->0).1@ == int_text(self.strike_spec(side)),
            FIRST_DAY <= expiry_of(today as int) <= LAST_DAY ==> r is Some,
    {
        let strike = self.strike(side);
        match expiry_label(today) {
            Some(label) => Some((instrument_id(strike, side, label.as_str()), string_of(&int_to_text(strike)))),
            None => None,
        }
    }
}

/// The strike and the identifier are functions of the range, the side and the day
/// alone: two computations from the same inputs give the same strike and identifier.
pub proof fn calculation_is_deterministic(
    range: PriceRange,
    side: Side,
    today: int,
    strike1: int,
    strike2: int,
    id1: Seq<char>,
    id2: Seq<char>,
)
    requires
        strike1 == range.strike_spec(side),
        strike2 == range.strike_spec(side),
        id1 == range.instrument_spec(side, today),
        id2 == range.instrument_spec(side, today),
    ensures
        strike1 == strike2,
        id1 == id2,
{
}

} // verus!
