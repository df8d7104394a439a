//! Weekly expiry dates.
//!
//! A date is held as its day number in the proleptic Gregorian calendar,
//! counted as chrono's `Datelike::num_days_from_ce` counts it: January 1 of
//! year 1 is day 1, and was a Monday.

use vstd::prelude::*;

verus! {

/// Weekday numbers, counted from Monday as zero.
pub const MONDAY: u32 = 0;
pub const THURSDAY: u32 = 3;

/// The weekday on which the weekly contracts expire.
pub const EXPIRY_WEEKDAY: u32 = THURSDAY;

/// The first and last day numbers of the years 1 to 9999.
pub const FIRST_DAY: i32 = 1;
pub const LAST_DAY: i32 = 3652059;

/// The weekday of day `day`, Monday being zero.
pub open spec fn weekday(day: int) -> int {
    (day - 1) % 7
}

/// Days from `day` to the next expiry weekday, zero where `day` is one.
pub open spec fn days_to_expiry(day: int) -> int {
    (EXPIRY_WEEKDAY - weekday(day) + 7) % 7
}

/// The first expiry weekday on or after `day`.
pub open spec fn expiry_of(day: int) -> int {
    day + days_to_expiry(day)
}

/// The text of `day` in chrono's format `_%d%b%Y_` (`_25Jul2024_`).
pub uninterp spec fn day_text(day: int) -> Seq<char>;

/// The text `str::to_uppercase` makes of `s`.
pub uninterp spec fn upper_of(s: Seq<char>) -> Seq<char>;

/// Relies on chrono's `NaiveDate::from_num_days_from_ce_opt` and `format("_%d%b%Y_")`:
/// the text depends on the day number alone, and every day of the years 1 to 9999
/// is in chrono's range.
#[verifier::external_body]
fn format_day(day: i32) -> (r: Option<String>)
    ensures
        r is Some ==> r->0@ == day_text(day as int),
        FIRST_DAY <= day <= LAST_DAY ==> r is Some,
{
    match chrono::NaiveDate::from_num_days_from_ce_opt(day) {
        Some(date) => Some(date.format("_%d%b%Y_").to_string()),
        None => None,
    }
}

/// Relies on `str::to_uppercase`: the result depends on the characters alone.
#[verifier::external_body]
fn uppercase(s: &str) -> (r: String)
    ensures
        r@ == upper_of(s@),
{
    s.to_uppercase()
}

/// The weekday of `day`, Monday being zero.
pub fn weekday_of(day: i32) -> (r: u32)
    ensures
        r == weekday(day as int),
        r < 7,
{
    let shifted: i64 = day as i64 - 1 + 7 * 400000000;
    let r = (shifted as u64 % 7) as u32;
    assert((day as int - 1 + 7 * 400000000) % 7 == (day as int - 1) % 7) by (nonlinear_arith);
    r
}

/// The day of the next weekly expiry: `today` itself where it falls on the
/// expiry weekday, else the first such day after it.
pub fn expiry_day(today: i32) -> (r: i64)
    ensures
        r == expiry_of(today as int),
{
    let w = weekday_of(today);
    let ahead = (EXPIRY_WEEKDAY + 7 - w) % 7;
    today as i64 + ahead as i64
}

/// The label of the next weekly expiry after (or on) `today`, as `_25JUL2024_`;
/// `None` only where that day lies outside chrono's calendar.
pub fn expiry_label(today: i32) -> (r: Option<String>)
    ensures
        r is Some ==> r->0@ == upper_of(day_text(expiry_of(today as int))),
        FIRST_DAY <= expiry_of(today as int) <= LAST_DAY ==> r is Some,
{
    let day = expiry_day(today);
    if day > i32::MAX as i64 {
        return None;
    }
    match format_day(day as i32) {
        Some(text) => Some(uppercase(text.as_str())),
        None => None,
    }
}

/// The expiry day falls on the expiry weekday, at most six days after `today`,
/// and no day between `today` and it falls on that weekday: walking forward from
/// `today` one day at a time stops there.
pub proof fn expiry_is_first_expiry_weekday(today: int)
    ensures
        weekday(expiry_of(today)) == EXPIRY_WEEKDAY,
        today <= expiry_of(today) < today + 7,
        forall|d: int| today <= d < expiry_of(today) ==> weekday(d) != EXPIRY_WEEKDAY,
{
    assert forall|d: int| today <= d < expiry_of(today) implies weekday(d) != EXPIRY_WEEKDAY by {
        assert((d - 1) % 7 == ((today - 1) % 7 + (d - today)) % 7) by (nonlinear_arith)
            requires
                today <= d < today + 7,
        ;
    }
    assert(((today + days_to_expiry(today)) - 1) % 7 == ((today - 1) % 7 + days_to_expiry(today)) % 7)
        by (nonlinear_arith)
        requires
            0 <= days_to_expiry(today) < 7,
    ;
}

/// On the expiry weekday the expiry is that same day.
pub proof fn expiry_on_expiry_weekday(today: int)
    requires
        weekday(today) == EXPIRY_WEEKDAY,
    ensures
        expiry_of(today) == today,
{
}

/// On a Monday the expiry is the Thursday three days later.
pub proof fn expiry_from_monday(today: int)
    requires
        weekday(today) == MONDAY,
    ensures
        expiry_of(today) == today + 3,
        weekday(today + 3) == THURSDAY,
{
    assert((today + 3 - 1) % 7 == ((today - 1) % 7 + 3) % 7) by (nonlinear_arith);
}

} // verus!
