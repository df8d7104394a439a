use chrono::{Datelike, NaiveDate};
use nifty_strikes::calendar::{expiry_day, expiry_label, weekday_of, FIRST_DAY, LAST_DAY, THURSDAY};
use nifty_strikes::instrument::{instrument_id, int_to_text};
use nifty_strikes::price::Price;
use nifty_strikes::strike::{PriceRange, Side};

fn day(y: i32, m: u32, d: u32) -> i32 {
    NaiveDate::from_ymd_opt(y, m, d).unwrap().num_days_from_ce()
}

fn sample_range() -> PriceRange {
    PriceRange::new(Price::new(2512340, 2), Price::new(2487660, 2))
}

#[test]
fn strike_rounding() {
    let r = sample_range();
    assert_eq!(r.strike(Side::Call), 25100);
    assert_eq!(r.strike(Side::Put), 24900);
}

#[test]
fn strike_halves_round_away_from_zero() {
    let r = PriceRange::new(Price::new(25200, 0), Price::new(-200, 0));
    // 25200 - 50 = 25150, halfway between 25100 and 25200
    assert_eq!(r.strike(Side::Call), 25200);
    // -200 + 50 = -150, halfway between -100 and -200
    assert_eq!(r.strike(Side::Put), -200);
    let r = PriceRange::new(Price::new(-100, 0), Price::new(100, 0));
    assert_eq!(r.strike(Side::Call), -200);
    assert_eq!(r.strike(Side::Put), 200);
}

#[test]
fn strike_below_half_rounds_toward() {
    let r = PriceRange::new(Price::new(2514999, 2), Price::new(2484999, 2));
    assert_eq!(r.strike(Side::Call), 25100);
    assert_eq!(r.strike(Side::Put), 24900);
}

#[test]
fn weekday_counts_from_monday() {
    assert_eq!(weekday_of(1), 0);
    assert_eq!(weekday_of(day(2024, 7, 22)), 0);
    assert_eq!(weekday_of(day(2024, 7, 25)), THURSDAY);
    assert_eq!(weekday_of(day(2024, 7, 28)), 6);
}

#[test]
fn expiry_on_non_expiry_day() {
    let monday = day(2024, 7, 22);
    assert_eq!(expiry_day(monday), monday as i64 + 3);
    assert_eq!(expiry_label(monday), Some("_25JUL2024_".to_string()));
}

#[test]
fn expiry_on_expiry_day() {
    let thursday = day(2024, 7, 25);
    assert_eq!(expiry_day(thursday), thursday as i64);
    assert_eq!(expiry_label(thursday), Some("_25JUL2024_".to_string()));
}

#[test]
fn expiry_from_friday_crosses_month() {
    let friday = day(2024, 7, 26);
    assert_eq!(expiry_day(friday), friday as i64 + 6);
    assert_eq!(expiry_label(friday), Some("_01AUG2024_".to_string()));
}

#[test]
fn instrument_format() {
    assert_eq!(
        instrument_id(25100, Side::Call, "_25JUL2024_"),
        "OPTIDX_NIFTY_25JUL2024_CE_25100"
    );
    assert_eq!(
        instrument_id(24900, Side::Put, "_25JUL2024_"),
        "OPTIDX_NIFTY_25JUL2024_PE_24900"
    );
}

#[test]
fn integer_text() {
    assert_eq!(int_to_text(0).into_iter().collect::<String>(), "0");
    assert_eq!(int_to_text(25100).into_iter().collect::<String>(), "25100");
    assert_eq!(int_to_text(-200).into_iter().collect::<String>(), "-200");
}

#[test]
fn instrument_for_range_and_day() {
    let r = sample_range();
    let monday = day(2024, 7, 22);
    assert_eq!(
        r.instrument(Side::Call, monday),
        Some(("OPTIDX_NIFTY_25JUL2024_CE_25100".to_string(), "25100".to_string()))
    );
    assert_eq!(
        r.instrument(Side::Put, monday),
        Some(("OPTIDX_NIFTY_25JUL2024_PE_24900".to_string(), "24900".to_string()))
    );
}

#[test]
fn calculation_is_idempotent() {
    let r = sample_range();
    let today = day(2024, 7, 23);
    for side in [Side::Call, Side::Put] {
        assert_eq!(r.strike(side), r.strike(side));
        assert_eq!(r.instrument(side, today), r.instrument(side, today));
    }
}

#[test]
fn calendar_bounds_are_years_one_to_9999() {
    assert_eq!(FIRST_DAY, day(1, 1, 1));
    assert_eq!(LAST_DAY, day(9999, 12, 31));
    assert_eq!(expiry_label(LAST_DAY - 6).map(|s| s.len()), Some(11));
}

#[test]
fn weekday_matches_chrono() {
    let mut date = NaiveDate::from_ymd_opt(1999, 12, 1).unwrap();
    for _ in 0..1000 {
        let n = date.num_days_from_ce();
        assert_eq!(weekday_of(n), date.weekday().num_days_from_monday());
        let expiry = NaiveDate::from_num_days_from_ce_opt(expiry_day(n) as i32).unwrap();
        assert_eq!(expiry.weekday(), chrono::Weekday::Thu);
        assert!(expiry_day(n) - (n as i64) < 7);
        date = date.succ_opt().unwrap();
    }
}
