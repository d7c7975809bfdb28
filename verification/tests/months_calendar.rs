use owo::calendar::{
    add_months, add_months_checked, add_months_str, billing_cycle, date_before, date_string,
    days_in_month, is_leap_year, min_date, parse_ymd, succ, ymd_clamp, Date,
};
use owo::error::ApiError;
use owo::months::{
    month_bounds, month_end_excl, month_string, shift_month, shift_month_str, validate_month,
    ymd_string,
};

fn date(year: i32, month: u32, day: u32) -> Date {
    Date { year, month, day }
}

fn reason_of(e: ApiError) -> (String, String) {
    match e {
        ApiError::Validation { field, reason } => (field, reason),
        other => panic!("not a validation error: {:?}", other),
    }
}

#[test]
fn month_bounds_of_december_rolls_the_year() {
    let (lo, hi) = month_bounds("2024-12").unwrap();
    assert_eq!(lo, "2024-12-01");
    assert_eq!(hi, "2025-01-01");
    let (lo, hi) = month_bounds("2024-02").unwrap();
    assert_eq!(lo, "2024-02-01");
    assert_eq!(hi, "2024-03-01");
}

#[test]
fn month_bounds_errors() {
    assert_eq!(reason_of(month_bounds("2024/01").unwrap_err()), ("month".to_string(), "expected YYYY-MM".to_string()));
    assert_eq!(reason_of(month_bounds("2024-1").unwrap_err()).1, "expected YYYY-MM");
    assert_eq!(reason_of(month_bounds("abcd-01").unwrap_err()).1, "invalid year");
    assert_eq!(reason_of(month_bounds("2024-ab").unwrap_err()).1, "invalid month");
    assert_eq!(reason_of(month_bounds("2024-13").unwrap_err()).1, "month must be 01..12");
    assert_eq!(reason_of(month_bounds("2024-00").unwrap_err()).1, "month must be 01..12");
}

#[test]
fn validate_month_reports_one_reason() {
    assert!(validate_month("2023-07").is_ok());
    assert_eq!(reason_of(validate_month("2023-7x").unwrap_err()), ("month".to_string(), "expected YYYY-MM".to_string()));
}

#[test]
fn month_end_is_quoted_next_first() {
    assert_eq!(month_end_excl("2024-12").unwrap(), "'2025-01-01'");
    assert_eq!(month_end_excl("2024-05").unwrap(), "'2024-06-01'");
    assert!(month_end_excl("May").is_err());
}

#[test]
fn month_and_date_text_are_zero_padded() {
    assert_eq!(month_string(2024, 3), "2024-03");
    assert_eq!(month_string(987, 11), "0987-11");
    assert_eq!(ymd_string(2024, 3, 7), "2024-03-07");
}

#[test]
fn shift_month_moves_across_years() {
    assert_eq!(shift_month("2024-01", -1), "2023-12");
    assert_eq!(shift_month("2024-12", 1), "2025-01");
    assert_eq!(shift_month("2024-05", -6), "2023-11");
    assert_eq!(shift_month("2024-05", 24), "2026-05");
    assert_eq!(shift_month("2024-05", 0), "2024-05");
}

#[test]
fn shift_month_str_checks_and_shifts() {
    assert_eq!(shift_month_str("2024-11", 2).unwrap(), "2025-01");
    assert_eq!(shift_month_str("2024-00", 0).unwrap(), "2023-12");
    assert_eq!(reason_of(shift_month_str("202411", 1).unwrap_err()).1, "expected YYYY-MM");
    assert_eq!(reason_of(shift_month_str("20x4-11", 1).unwrap_err()).1, "invalid year");
    assert_eq!(reason_of(shift_month_str("2024-1x", 1).unwrap_err()).1, "invalid month");
}

#[test]
fn shifting_back_undoes_a_shift() {
    let there = shift_month("2024-05", 19);
    assert_eq!(shift_month(&there, -19), "2024-05");
}

#[test]
fn leap_years_and_month_lengths() {
    assert!(is_leap_year(2024));
    assert!(is_leap_year(2000));
    assert!(!is_leap_year(1900));
    assert!(!is_leap_year(2023));
    assert!(is_leap_year(-4));
    assert_eq!(days_in_month(2024, 2), 29);
    assert_eq!(days_in_month(2023, 2), 28);
    assert_eq!(days_in_month(2023, 4), 30);
    assert_eq!(days_in_month(2023, 12), 31);
}

#[test]
fn clamping_and_adding_months() {
    assert_eq!(ymd_clamp(2023, 2, 31), date(2023, 2, 28));
    assert_eq!(add_months(date(2024, 1, 31), 1), date(2024, 2, 29));
    assert_eq!(add_months(date(2024, 3, 15), -3), date(2023, 12, 15));
    assert_eq!(add_months(date(2024, 12, 31), 14), date(2026, 2, 28));
}

#[test]
fn date_helpers() {
    assert_eq!(min_date(date(2024, 1, 2), date(2023, 12, 31)), date(2023, 12, 31));
    assert!(date_before(date(2023, 12, 31), date(2024, 1, 1)));
    assert!(!date_before(date(2024, 1, 1), date(2024, 1, 1)));
    assert_eq!(succ(date(2024, 2, 28)), date(2024, 2, 29));
    assert_eq!(succ(date(2023, 12, 31)), date(2024, 1, 1));
}

#[test]
fn dates_are_written_as_chrono_writes_them() {
    assert_eq!(date_string(date(2024, 3, 5)), "2024-03-05");
    assert_eq!(date_string(date(-5, 1, 1)), "-0005-01-01");
    assert_eq!(date_string(date(12345, 6, 7)), "+12345-06-07");
}

#[test]
fn parse_ymd_reads_dates() {
    assert_eq!(parse_ymd("2024-02-29"), Some(date(2024, 2, 29)));
    assert_eq!(parse_ymd("2023-02-29"), None);
    assert_eq!(parse_ymd("not a date"), None);
}

#[test]
fn add_months_str_clamps_to_month_end() {
    assert_eq!(add_months_str("2024-01-31", 1).unwrap(), "2024-02-29");
    assert_eq!(add_months_str("2023-01-31", 1).unwrap(), "2023-02-28");
    assert_eq!(add_months_str("2024-03-15", -3).unwrap(), "2023-12-15");
    assert_eq!(
        reason_of(add_months_str("15/03/2024", 1).unwrap_err()),
        ("tx_date".to_string(), "expected YYYY-MM-DD".to_string())
    );
}

#[test]
fn add_months_checked_refuses_leaving_the_range() {
    assert!(add_months_checked("2024-01-31", 1).unwrap().is_ok());
    assert!(add_months_checked("2024-01-31", i32::MAX).is_none());
    assert!(add_months_checked("x", i32::MAX).unwrap().is_err());
}

#[test]
fn billing_cycle_after_closing_day() {
    let c = billing_cycle(date(2024, 5, 10), 5, 12);
    assert_eq!(c.period_start, date(2024, 5, 6));
    assert_eq!(c.period_end, date(2024, 6, 5));
    assert_eq!(c.due_date, date(2024, 7, 12));
}

#[test]
fn billing_cycle_before_closing_day() {
    let c = billing_cycle(date(2024, 5, 3), 5, 12);
    assert_eq!(c.period_start, date(2024, 4, 6));
    assert_eq!(c.period_end, date(2024, 5, 5));
    assert_eq!(c.due_date, date(2024, 6, 12));
}

#[test]
fn billing_cycle_on_closing_day_and_short_month() {
    let c = billing_cycle(date(2024, 5, 5), 5, 12);
    assert_eq!(c.period_end, date(2024, 5, 5));
    let c = billing_cycle(date(2024, 2, 10), 31, 31);
    assert_eq!(c.period_end, date(2024, 2, 29));
    assert_eq!(c.period_start, date(2024, 2, 1));
    assert_eq!(c.due_date, date(2024, 3, 31));
}

#[test]
fn billing_cycles_follow_each_other_without_overlap() {
    for close in [1u32, 15, 28, 29, 30, 31] {
        let mut d = date(2023, 1, 1);
        while d.year < 2025 {
            let c = billing_cycle(d, close, 10);
            let next = billing_cycle(succ(c.period_end), close, 10);
            assert_eq!(next.period_start, succ(c.period_end));
            d = succ(d);
        }
    }
    let c = billing_cycle(date(2024, 2, 10), 31, 10);
    assert_eq!((c.period_start, c.period_end, c.due_date), (date(2024, 2, 1), date(2024, 2, 29), date(2024, 3, 10)));
}

#[test]
fn billing_cycle_contains_today_for_every_day_of_a_year() {
    let mut d = date(2023, 1, 1);
    while d.year == 2023 {
        for close in [1u32, 5, 15, 28, 30, 31] {
            let c = billing_cycle(d, close, 10);
            assert!(!date_before(d, c.period_start));
            assert!(!date_before(c.period_end, d));
            assert!(date_before(c.period_end, c.due_date));
        }
        d = succ(d);
    }
}

#[test]
fn shifted_months_ascend_as_text() {
    let shifted: Vec<String> = (-14..14).map(|d| shift_month("2024-03", d)).collect();
    for w in shifted.windows(2) {
        assert!(w[0] < w[1], "{} !< {}", w[0], w[1]);
    }
    assert_eq!(shifted[0], "2023-01");
}

#[test]
fn billing_cycle_near_the_first_supported_year() {
    let c = billing_cycle(date(-262143, 2, 10), 31, 10);
    assert_eq!(c.period_start, date(-262143, 2, 1));
    assert_eq!(c.period_end, date(-262143, 2, 28));
    assert_eq!(c.due_date, date(-262143, 3, 10));
}
