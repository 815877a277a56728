use newsletter_core::schedule::Date;
use newsletter_core::schedule::is_due;
use newsletter_core::schedule::parse_time;

fn day(year: u32, month: u8, d: u8) -> Date {
    Date { year, month, day: d }
}

#[test]
fn due_inside_window_without_prior_run() {
    // 09:05 against a 09:00 schedule, never run before.
    assert_eq!(is_due(&day(2025, 3, 7), 545, 540, &None), true);
}

#[test]
fn not_due_after_window() {
    // 09:20 against a 09:00 schedule.
    assert_eq!(is_due(&day(2025, 3, 7), 560, 540, &None), false);
}

#[test]
fn not_due_before_window() {
    // 08:59 against a 09:00 schedule.
    assert_eq!(is_due(&day(2025, 3, 7), 539, 540, &None), false);
}

#[test]
fn window_boundaries_are_half_open() {
    assert_eq!(is_due(&day(2025, 3, 7), 540, 540, &None), true);
    assert_eq!(is_due(&day(2025, 3, 7), 554, 540, &None), true);
    assert_eq!(is_due(&day(2025, 3, 7), 555, 540, &None), false);
}

#[test]
fn same_day_run_suppresses_regardless_of_status() {
    // A record for today blocks the run even inside the window; the record's
    // status does not matter because only the date is consulted.
    let today = day(2025, 3, 7);
    assert_eq!(is_due(&today, 545, 540, &Some(today)), false);
}

#[test]
fn yesterdays_run_does_not_suppress() {
    assert_eq!(is_due(&day(2025, 3, 7), 545, 540, &Some(day(2025, 3, 6))), true);
    assert_eq!(is_due(&day(2025, 3, 7), 545, 540, &Some(day(2024, 12, 31))), true);
}

#[test]
fn future_run_date_suppresses() {
    assert_eq!(is_due(&day(2025, 3, 7), 545, 540, &Some(day(2025, 3, 8))), false);
}

#[test]
fn parse_time_hours_and_minutes() {
    assert_eq!(parse_time("09:00"), Some(540));
    assert_eq!(parse_time("23:59"), Some(1439));
    assert_eq!(parse_time("0:0"), Some(0));
}

#[test]
fn parse_time_ignores_seconds() {
    assert_eq!(parse_time("09:30:45"), Some(570));
}

#[test]
fn parse_time_hour_alone() {
    assert_eq!(parse_time("9"), Some(540));
}

#[test]
fn parse_time_bad_minutes_default_to_zero() {
    assert_eq!(parse_time("9:xx"), Some(540));
    assert_eq!(parse_time("9:"), Some(540));
}

#[test]
fn parse_time_rejects_out_of_range() {
    assert_eq!(parse_time("24:00"), None);
    assert_eq!(parse_time("12:60"), None);
}

#[test]
fn parse_time_rejects_non_numbers() {
    assert_eq!(parse_time(""), None);
    assert_eq!(parse_time("ab"), None);
    assert_eq!(parse_time(":30"), None);
}
