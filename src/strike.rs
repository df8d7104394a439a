//! Strike prices: a day's high or low moved inward by an offset and rounded
//! to the strike grid, half away from zero.

use vstd::prelude::*;
use crate::price::{Price, pow10, lemma_pow10_mono, MAX_DIGITS};

verus! {

/// How far inside the day's range a strike is taken.
pub const STRIKE_OFFSET: i128 = 50;

/// The spacing of the strike grid.
pub const STRIKE_STEP: i128 = 100;

/// The side of an option contract.
#[derive(Clone, Copy, Debug, PartialEq, Eq, Structural)]
pub enum Side {
    Call,
    Put,
}

/// A day's high and low of the index.
#[derive(Clone, Copy, Debug, PartialEq, Eq, Structural)]
pub struct PriceRange {
    pub high: Price,
    pub low: Price,
}

/// `n / d` rounded to the nearest integer, halves away from zero.
pub open spec fn round_half_away(n: int, d: int) -> int
    recommends
        d > 0,
{
    if n >= 0 {
        (2 * n + d) / (2 * d)
    } else {
        -((-2 * n + d) / (2 * d))
    }
}

/// The strike for `side` taken from price `p`: `p - 50` for a call, `p + 50` for a put,
/// rounded to the nearest multiple of 100, halves away from zero.
pub open spec fn strike_from(p: Price, side: Side) -> int {
    let d = p.denominator() as int;
    let n = match side {
        Side::Call => p.numerator() - STRIKE_OFFSET * d,
        Side::Put => p.numerator() + STRIKE_OFFSET * d,
    };
    STRIKE_STEP * round_half_away(n, STRIKE_STEP * d)
}

impl PriceRange {
    pub open spec fn wf(self) -> bool {
        self.high.wf() && self.low.wf()
    }

    /// The strike for `side`: taken from the high for a call, from the low for a put.
    pub open spec fn strike_spec(self, side: Side) -> int {
        match side {
            Side::Call => strike_from(self.high, side),
            Side::Put => strike_from(self.low, side),
        }
    }

    pub fn new(high: Price, low: Price) -> (r: PriceRange)
        ensures
            r.high == high,
            r.low == low,
    {
        PriceRange { high, low }
    }

    /// The strike price for `side`.
    pub fn strike(&self, side: Side) -> (r: i128)
        requires
            self.wf(),
        ensures
            r == self.strike_spec(side),
    {
        let p = match side {
            Side::Call => self.high,
            Side::Put => self.low,
        };
        strike_of_price(p, side)
    }
}

fn power_of_ten(k: u32) -> (r: i128)
    requires
        k <= MAX_DIGITS,
    ensures
        r == pow10(k as nat),
        1 <= r <= 1000000000000000000,
{
    let mut r: i128 = 1;
    let mut i: u32 = 0;
    proof {
        reveal_with_fuel(pow10, 19);
    }
    while i < k
        invariant
            i <= k <= MAX_DIGITS,
            r == pow10(i as nat),
            pow10(18) == 1000000000000000000,
        decreases k - i,
    {
        proof {
            lemma_pow10_mono((i + 1) as nat, 18);
        }
        r = r * 10;
        i += 1;
    }
    proof {
        lemma_pow10_mono(i as nat, 18);
        lemma_pow10_positive(i as nat);
    }
    r
}

proof fn lemma_pow10_positive(k: nat)
    ensures
        pow10(k) >= 1,
    decreases k,
{
    if k > 0 {
        lemma_pow10_positive((k - 1) as nat);
    }
}

/// The strike for `side` taken from `p`.
pub fn strike_of_price(p: Price, side: Side) -> (r: i128)
    requires
        p.wf(),
    ensures
        r == strike_from(p, side),
{
    let d = power_of_ten(p.scale);
    let n: i128 = match side {
        Side::Call => p.units as i128 - STRIKE_OFFSET * d,
        Side::Put => p.units as i128 + STRIKE_OFFSET * d,
    };
    let step: i128 = STRIKE_STEP * d;
    let den: u128 = (step + step) as u128;
    let q: i128 = if n >= 0 {
        let a = n as u128;
        let q = (2 * a + (STRIKE_STEP * d) as u128) / den;
        assert(q as int <= 2 * a as int + STRIKE_STEP as int * d as int) by (nonlinear_arith)
            requires
                q as int == (2 * a as int + STRIKE_STEP as int * d as int) / den as int,
                den >= 1,
                d >= 1,
        ;
        q as i128
    } else {
        let a = (-n) as u128;
        let q = (2 * a + (STRIKE_STEP * d) as u128) / den;
        assert(q as int <= 2 * a as int + STRIKE_STEP as int * d as int) by (nonlinear_arith)
            requires
                q as int == (2 * a as int + STRIKE_STEP as int * d as int) / den as int,
                den >= 1,
                d >= 1,
        ;
        -(q as i128)
    };
    STRIKE_STEP * q
}

} // verus!
