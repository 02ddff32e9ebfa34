use claw_core::logger::{
    cutoff_date, format_date, format_log_line, format_timestamp, is_date_str, is_valid_date,
    should_delete_log, SystemLogger, RETENTION_DAYS,
};

#[test]
fn date_strings_are_recognized() {
    assert!(is_date_str("2024-01-31"));
    assert!(is_date_str("0001-12-09"));
    assert!(!is_date_str("2024-1-31"));
    assert!(!is_date_str("2024-01-3"));
    assert!(!is_date_str("2024-01-311"));
    assert!(!is_date_str("2024_01_31"));
    assert!(!is_date_str("2024-01-3a"));
    assert!(!is_date_str("20240131xx"));
    assert!(!is_date_str(""));
}

#[test]
fn dates_render_zero_padded() {
    assert_eq!(format_date(2024, 3, 7), "2024-03-07");
    assert_eq!(format_date(987, 12, 31), "0987-12-31");
    assert_eq!(format_date(0, 1, 1), "0000-01-01");
}

#[test]
fn timestamps_render_in_utc_shape() {
    assert_eq!(format_timestamp(2024, 3, 7, 4, 5, 6), "2024-03-07T04:05:06Z");
    assert_eq!(format_timestamp(1999, 12, 31, 23, 59, 59), "1999-12-31T23:59:59Z");
}

#[test]
fn log_lines_have_the_fixed_shape() {
    assert_eq!(
        format_log_line("2024-03-07T04:05:06Z", "ERROR", "boom"),
        "[2024-03-07T04:05:06Z] ERROR boom\n"
    );
}

#[test]
fn calendar_validity() {
    assert!(is_valid_date(2024, 2, 29)); // leap year
    assert!(!is_valid_date(2023, 2, 29));
    assert!(!is_valid_date(1900, 2, 29)); // century, not a leap year
    assert!(is_valid_date(2000, 2, 29)); // 400-year rule
    assert!(is_valid_date(2024, 12, 31));
    assert!(!is_valid_date(2024, 13, 1));
    assert!(!is_valid_date(2024, 4, 31));
    assert!(!is_valid_date(2024, 1, 0));
}

#[test]
fn cutoff_is_six_days_back() {
    assert_eq!(RETENTION_DAYS, 7);
    assert_eq!(cutoff_date(2024, 3, 7).as_deref(), Some("2024-03-01"));
    // across a month and a year boundary
    assert_eq!(cutoff_date(2024, 3, 1).as_deref(), Some("2024-02-24"));
    assert_eq!(cutoff_date(2024, 1, 3).as_deref(), Some("2023-12-28"));
    // across the February 29th of a leap year
    assert_eq!(cutoff_date(2024, 3, 3).as_deref(), Some("2024-02-26"));
}

#[test]
fn prune_deletes_only_dated_files_before_the_cutoff() {
    assert!(should_delete_log("2024-02-20", "2024-02-24"));
    assert!(!should_delete_log("2024-02-24", "2024-02-24"));
    assert!(!should_delete_log("2024-02-25", "2024-02-24"));
    assert!(!should_delete_log("notadate", "2024-02-24"));
    assert!(!should_delete_log("2024-02-2x", "2024-02-24"));
    assert!(should_delete_log("2023-12-31", "2024-01-01"));
}

#[test]
fn prune_gate_runs_once_per_day() {
    let mut l = SystemLogger::new();
    assert!(l.last_prune_date.is_none());
    assert!(l.prune_if_needed("2024-03-07"));
    assert!(!l.prune_if_needed("2024-03-07"));
    assert!(l.prune_if_needed("2024-03-08"));
    assert!(!l.prune_if_needed("2024-03-08"));
    assert_eq!(l.last_prune_date.as_deref(), Some("2024-03-08"));
}

#[test]
fn log_file_names_carry_the_date() {
    let l = SystemLogger::new();
    assert_eq!(l.file_path("2024-03-07"), "2024-03-07.log");
}
