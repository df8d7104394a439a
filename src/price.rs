//! Exact decimal prices, read from the text of a page.
//!
//! A price is held as an integer count of units of `10^-scale`, so that the
//! strike computation is exact where a binary float would only approximate it.

use vstd::prelude::*;
use crate::text::without;

verus! {

/// The most digits that a price may have, sign and point aside: its units then fit in an `i64`.
pub const MAX_DIGITS: usize = 18;

/// A decimal number: `units / 10^scale`.
#[derive(Clone, Copy, Debug, PartialEq, Eq, Structural)]
pub struct Price {
    pub units: i64,
    pub scale: u32,
}

pub open spec fn pow10(k: nat) -> nat
    decreases k,
{
    if k == 0 {
        1
    } else {
        10 * pow10((k - 1) as nat)
    }
}

pub open spec fn is_digit(c: char) -> bool {
    '0' <= c && c <= '9'
}

pub open spec fn digit_value(c: char) -> int {
    c as int - '0' as int
}

/// The number that a string of decimal digits writes.
pub open spec fn digits_value(s: Seq<char>) -> int
    decreases s.len(),
{
    if s.len() == 0 {
        0
    } else {
        digits_value(s.drop_last()) * 10 + digit_value(s.last())
    }
}

/// Number of characters after the last `'.'` of `s` (all of them where there is none).
pub open spec fn frac_len(s: Seq<char>) -> nat
    decreases s.len(),
{
    if s.len() == 0 {
        0
    } else if s.last() == '.' {
        0
    } else {
        frac_len(s.drop_last()) + 1
    }
}

/// Length of the sign that starts `t`: one for `'-'` or `'+'`, else zero.
pub open spec fn sign_len(t: Seq<char>) -> int {
    if t.len() > 0 && (t[0] == '-' || t[0] == '+') {
        1
    } else {
        0
    }
}

/// What follows the sign.
pub open spec fn number_body(t: Seq<char>) -> Seq<char> {
    t.subrange(sign_len(t), t.len() as int)
}

/// `t` is an optional sign, then digits with at most one decimal point among them:
/// at least one digit and at most `MAX_DIGITS`.
pub open spec fn is_number(t: Seq<char>) -> bool {
    let b = number_body(t);
    let d = without(b, '.');
    &&& forall|j: int| 0 <= j < b.len() ==> is_digit(#[trigger] b[j]) || b[j] == '.'
    &&& b.len() <= d.len() + 1
    &&& 1 <= d.len() <= MAX_DIGITS
}

/// The price that a number text writes.
pub open spec fn price_of(t: Seq<char>) -> Price {
    let b = number_body(t);
    let d = without(b, '.');
    let m = digits_value(d);
    Price {
        units: (if t[0] == '-' { -m } else { m }) as i64,
        scale: (if d.len() < b.len() { frac_len(b) } else { 0 }) as u32,
    }
}

/// The price that `t` writes, or `None` where `t` is no number.
pub open spec fn parse_price(t: Seq<char>) -> Option<Price> {
    if is_number(t) {
        Some(price_of(t))
    } else {
        None
    }
}

impl Price {
    /// The exact value `units / 10^scale`, as a numerator over `denominator`.
    pub open spec fn numerator(self) -> int {
        self.units as int
    }

    pub open spec fn denominator(self) -> nat {
        pow10(self.scale as nat)
    }

    /// Prices that this library computes with: at most `MAX_DIGITS` decimals.
    pub open spec fn wf(self) -> bool {
        self.scale <= MAX_DIGITS
    }

    pub fn new(units: i64, scale: u32) -> (r: Price)
        ensures
            r.units == units,
            r.scale == scale,
    {
        Price { units, scale }
    }
}

proof fn lemma_without_step(s: Seq<char>, c: char, x: char)
    ensures
        without(s.push(x), c) == (if x == c { without(s, c) } else { without(s, c).push(x) }),
{
    assert(s.push(x).drop_last() == s);
}

proof fn lemma_without_len(s: Seq<char>, c: char)
    ensures
        without(s, c).len() <= s.len(),
    decreases s.len(),
{
    if s.len() > 0 {
        lemma_without_len(s.drop_last(), c);
    }
}

proof fn lemma_without_prefix(s: Seq<char>, c: char, k: int)
    requires
        0 <= k <= s.len(),
    ensures
        without(s.subrange(0, k), c).len() <= without(s, c).len(),
        k - without(s.subrange(0, k), c).len() <= s.len() - without(s, c).len(),
    decreases s.len() - k,
{
    if k < s.len() {
        lemma_without_prefix(s, c, k + 1);
        assert(s.subrange(0, k + 1) == s.subrange(0, k).push(s[k]));
        lemma_without_step(s.subrange(0, k), c, s[k]);
    } else {
        assert(s.subrange(0, k) == s);
    }
}

pub proof fn lemma_pow10_mono(a: nat, b: nat)
    requires
        a <= b,
    ensures
        pow10(a) <= pow10(b),
    decreases b,
{
    if a < b {
        lemma_pow10_mono(a, (b - 1) as nat);
    }
}

/// Reads a decimal number: an optional sign, then digits with at most one point.
pub fn parse_number(t: &Vec<char>) -> (r: Option<Price>)
    ensures
        r == parse_price(t@),
        r is Some ==> r->0.wf(),
{
    let n = t.len();
    let mut i: usize = 0;
    let mut negative = false;
    if n > 0 && (t[0] == '-' || t[0] == '+') {
        negative = t[0] == '-';
        i = 1;
    }
    let start = i;
    let ghost body = number_body(t@);
    let mut m: i64 = 0;
    let mut count: usize = 0;
    let mut seen_dot = false;
    let mut scale: u32 = 0;
    proof {
        assert(t@.subrange(start as int, start as int) == Seq::<char>::empty());
        reveal_with_fuel(pow10, 19);
        assert(pow10(18) == 1000000000000000000);
    }
    while i < n
        invariant
            n == t@.len(),
            start == sign_len(t@),
            body == t@.subrange(start as int, n as int),
            negative == (n > 0 && t@[0] == '-'),
            start <= i <= n,
            forall|j: int| 0 <= j < i - start ==> is_digit(#[trigger] body[j]) || body[j] == '.',
            seen_dot == (without(body.subrange(0, i - start), '.').len() < i - start),
            i - start <= without(body.subrange(0, i - start), '.').len() + 1,
            count == without(body.subrange(0, i - start), '.').len(),
            count <= MAX_DIGITS,
            m == digits_value(without(body.subrange(0, i - start), '.')),
            0 <= m < pow10(count as nat),
            pow10(18) == 1000000000000000000,
            scale == (if seen_dot { frac_len(body.subrange(0, i - start)) } else { 0 }),
            scale <= count,
        decreases n - i,
    {
        let c = t[i];
        let ghost pre = body.subrange(0, i - start);
        proof {
            assert(body.subrange(0, i + 1 - start) == pre.push(c));
            assert(pre.push(c).drop_last() == pre);
            lemma_without_step(pre, '.', c);
            assert(pre.len() == i - start);
            lemma_without_len(pre, '.');
        }
        if c == '.' {
            if seen_dot {
                proof {
                    lemma_without_prefix(body, '.', i + 1 - start);
                }
                return None;
            }
            seen_dot = true;
            scale = 0;
        } else if '0' <= c && c <= '9' {
            if count == MAX_DIGITS {
                proof {
                    lemma_without_prefix(body, '.', i + 1 - start);
                }
                return None;
            }
            proof {
                let w = without(pre, '.');
                assert(w.push(c).drop_last() == w);
                lemma_pow10_mono((count + 1) as nat, 18);
            }
            m = m * 10 + (c as u32 - '0' as u32) as i64;
            count += 1;
            if seen_dot {
                scale += 1;
            }
        } else {
            assert(!(is_digit(body[i - start]) || body[i - start] == '.'));
            return None;
        }
        i += 1;
    }
    proof {
        assert(body.subrange(0, n - start) == body);
    }
    if count == 0 {
        return None;
    }
    Some(Price { units: if negative { -m } else { m }, scale })
}

} // verus!
