use chrono::{Datelike, NaiveDate, TimeDelta, Utc};
use promocode::promocode::date::{check_date_window, date_window_contains};
use promocode::promocode::restriction::{check_date, Restriction};
use promocode::promocode_request::arguments::Arguments;
use promocode::promocode_request::meteo::Meteo;
use promocode::validate_type::string::NonBlankString;

fn day(year: i32, month: u32, day: u32) -> i32 {
    NaiveDate::from_ymd_opt(year, month, day).unwrap().num_days_from_ce()
}

fn text(value: &str) -> NonBlankString {
    NonBlankString::new(value.to_string()).unwrap()
}

#[test]
fn window_bounds_are_checked() {
    assert_eq!(check_date_window(Some(5), Some(5)), Ok(()));
    assert_eq!(check_date_window(Some(5), Some(6)), Ok(()));
    assert_eq!(check_date_window(Some(-10), Some(6)), Ok(()));
    assert_eq!(check_date_window(Some(6), Some(5)).unwrap_err(), "`before` cannot be lower than `after`.");
    assert_eq!(check_date_window(None, Some(5)).unwrap_err(), "Cannot parse `after`.");
    assert_eq!(check_date_window(Some(5), None).unwrap_err(), "Cannot parse `before`.");
    assert_eq!(check_date_window(None, None).unwrap_err(), "Cannot parse `before` and `after`.");
}

#[test]
fn window_includes_both_ends() {
    assert!(date_window_contains(Some(10), Some(20), 10));
    assert!(date_window_contains(Some(10), Some(20), 15));
    assert!(date_window_contains(Some(10), Some(20), 20));
    assert!(!date_window_contains(Some(10), Some(20), 9));
    assert!(!date_window_contains(Some(10), Some(20), 21));
    assert!(date_window_contains(Some(10), Some(10), 10));
    assert!(!date_window_contains(Some(20), Some(10), 15));
}

#[test]
fn a_bound_that_is_no_date_does_not_bind() {
    assert!(date_window_contains(None, Some(20), i32::MIN));
    assert!(date_window_contains(None, Some(20), 20));
    assert!(!date_window_contains(None, Some(20), 21));
    assert!(date_window_contains(Some(10), None, i32::MAX));
    assert!(date_window_contains(Some(10), None, 10));
    assert!(!date_window_contains(Some(10), None, 9));
    assert!(date_window_contains(None, None, 0));
}

#[test]
fn dates_are_read_as_year_month_day() {
    assert_eq!(check_date("2019-01-01", "2020-06-30"), Ok(()));
    assert_eq!(check_date("2020-06-30", "2020-06-30"), Ok(()));
    assert_eq!(check_date("2020-02-29", "2020-03-01"), Ok(()));
    assert_eq!(check_date("2020-06-30", "2019-01-01").unwrap_err(), "`before` cannot be lower than `after`.");
    assert_eq!(check_date("2020-07-01", "2020-06-30").unwrap_err(), "`before` cannot be lower than `after`.");
    assert_eq!(check_date("2019-02-29", "2020-06-30").unwrap_err(), "Cannot parse `after`.");
    assert_eq!(check_date("2019-01-01", "2020-06-31").unwrap_err(), "Cannot parse `before`.");
    assert_eq!(check_date("01/01/2019", "30/06/2020").unwrap_err(), "Cannot parse `before` and `after`.");
    assert_eq!(check_date("2019-01-01T00:00:00", "2020-06-30").unwrap_err(), "Cannot parse `after`.");
    assert_eq!(check_date("yesterday", "2020-06-30").unwrap_err(), "Cannot parse `after`.");
    assert_eq!(check_date("", "2020-06-30").unwrap_err(), "`after` must be nonempty.");
    assert_eq!(check_date(" ", " ").unwrap_err(), "`after` must be nonempty.");
    assert_eq!(check_date("2019-01-01", "\t").unwrap_err(), "`before` must be nonempty.");
}

#[test]
fn date_restrictions_are_built_from_checked_dates_only() {
    assert!(Restriction::date("2019-01-01".to_string(), "2020-06-30".to_string()).is_ok());
    assert_eq!(
        Restriction::date("2020-06-30".to_string(), "2019-01-01".to_string()).unwrap_err(),
        "`before` cannot be lower than `after`."
    );
    assert_eq!(
        Restriction::date("2019-13-01".to_string(), "2020-06-30".to_string()).unwrap_err(),
        "Cannot parse `after`."
    );
    assert_eq!(
        Restriction::date("".to_string(), "2020-06-30".to_string()).unwrap_err(),
        "`after` must be nonempty."
    );
    let built = Restriction::date("2019-01-01".to_string(), "2020-06-30".to_string()).unwrap();
    assert_eq!(built, Restriction::date_unchecked("2019-01-01".to_string(), "2020-06-30".to_string()));
}

#[test]
fn a_date_restriction_holds_inside_its_window() {
    let after = text("2019-01-01");
    let before = text("2020-06-30");
    assert!(Restriction::check_restriction_date(&after, &before, day(2019, 1, 1)));
    assert!(Restriction::check_restriction_date(&after, &before, day(2019, 12, 31)));
    assert!(Restriction::check_restriction_date(&after, &before, day(2020, 6, 30)));
    assert!(!Restriction::check_restriction_date(&after, &before, day(2018, 12, 31)));
    assert!(!Restriction::check_restriction_date(&after, &before, day(2020, 7, 1)));
    assert!(Restriction::check_restriction_date(&text("never"), &before, day(1000, 1, 1)));
    assert!(!Restriction::check_restriction_date(&text("never"), &before, day(2020, 7, 1)));
    assert!(Restriction::check_restriction_date(&after, &text("ever"), day(3000, 1, 1)));
    assert!(!Restriction::check_restriction_date(&after, &text("ever"), day(2018, 1, 1)));
}

#[test]
fn the_day_of_a_request_is_read_from_the_clock() {
    let today = Utc::now().date_naive();
    let format = "%Y-%m-%d";
    let arguments = Arguments::new(25, Meteo::new("Lyon".to_string())).unwrap();
    let a_year_ahead = (today + TimeDelta::days(365)).format(format).to_string();
    let a_month_back = (today - TimeDelta::days(30)).format(format).to_string();
    let a_month_ahead = (today + TimeDelta::days(30)).format(format).to_string();

    let future = Restriction::date(a_year_ahead.clone(), a_year_ahead).unwrap();
    assert_eq!(future.check_restriction_generic(arguments.clone(), None), false);

    let around_today = Restriction::date(a_month_back.clone(), a_month_ahead).unwrap();
    assert_eq!(around_today.check_restriction_generic(arguments.clone(), None), true);

    let past = Restriction::date("2019-01-01".to_string(), a_month_back).unwrap();
    assert_eq!(past.check_restriction_generic(arguments, None), false);
}
