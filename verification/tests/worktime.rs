use calc_worktime::average::{calculate_average_work_hours, AverageWorkHours};
use calc_worktime::input::{work_day_from_updated, work_days_from_updated};
use calc_worktime::record::{WorkDay, WorkDayUpdated, WorkTimeError};
use calc_worktime::schedule::calculate_work_hours;

// 2024-05-01 00:00:00 UTC, in seconds since the Unix epoch.
const MAY_FIRST: i64 = 1714521600;

fn hours(avg: &AverageWorkHours) -> f64 {
    avg.total_minutes as f64 / 60.0 / avg.days as f64
}

#[test]
fn within_bounds_no_overlap_keeps_raw_span() {
    // 09:00 to 11:00: inside the workday, touches no break.
    let start = MAY_FIRST + 9 * 3600;
    let end = MAY_FIRST + 11 * 3600;
    assert_eq!(calculate_work_hours(start, end), 7200);
}

#[test]
fn afternoon_between_breaks_keeps_raw_span() {
    // 13:30 to 18:00: starts when lunch ends, ends when the evening break starts.
    let start = MAY_FIRST + 13 * 3600 + 1800;
    let end = MAY_FIRST + 18 * 3600;
    assert_eq!(calculate_work_hours(start, end), 16200);
}

#[test]
fn outside_bounds_is_clipped_to_workday() {
    // 08:00 to 23:30 exceeds both bounds; the result equals that of the
    // official workday interval [08:30, 23:00] itself, which spans both
    // breaks: 14h30m - 1h30m - 30m = 12h30m.
    let start = MAY_FIRST + 8 * 3600;
    let end = MAY_FIRST + 23 * 3600 + 1800;
    let clipped_start = MAY_FIRST + 8 * 3600 + 1800;
    let clipped_end = MAY_FIRST + 23 * 3600;
    let adjusted = calculate_work_hours(start, end);
    assert_eq!(adjusted, calculate_work_hours(clipped_start, clipped_end));
    assert_eq!(adjusted, 45000);
}

#[test]
fn spanning_lunch_deducts_ninety_minutes() {
    // 09:00 to 17:00 spans the lunch break fully: 8h - 1h30m = 6h30m.
    let start = MAY_FIRST + 9 * 3600;
    let end = MAY_FIRST + 17 * 3600;
    assert_eq!(calculate_work_hours(start, end), 23400);
}

#[test]
fn ending_exactly_at_evening_break_end_deducts_nothing() {
    // 09:00 to 18:30: ends exactly when the evening break ends, so neither
    // evening deduction fires; only lunch is deducted: 9h30m - 1h30m = 8h.
    let start = MAY_FIRST + 9 * 3600;
    let end_at_break_end = MAY_FIRST + 18 * 3600 + 1800;
    assert_eq!(calculate_work_hours(start, end_at_break_end), 28800);
    // Relative to ending when the break starts, the whole half hour counts.
    let end_at_break_start = MAY_FIRST + 18 * 3600;
    assert_eq!(
        calculate_work_hours(start, end_at_break_end),
        calculate_work_hours(start, end_at_break_start) + 1800
    );
}

#[test]
fn ending_inside_evening_break_deducts_partial_overlap() {
    // 09:00 to 18:15: the end falls strictly inside the evening break, so
    // the 15 minutes past its start are deducted besides lunch.
    let start = MAY_FIRST + 9 * 3600;
    let end = MAY_FIRST + 18 * 3600 + 900;
    assert_eq!(calculate_work_hours(start, end), 27000);
}

#[test]
fn ending_past_evening_break_deducts_thirty_minutes() {
    // 09:00 to 18:31: one minute past the break end already costs the full
    // fixed half hour besides lunch.
    let start = MAY_FIRST + 9 * 3600;
    let end = MAY_FIRST + 18 * 3600 + 1860;
    assert_eq!(calculate_work_hours(start, end), 27060);
}

#[test]
fn degenerate_interval_goes_negative() {
    // 10:00 back to 09:00: the raw span is negative and nothing else fires.
    let start = MAY_FIRST + 10 * 3600;
    let end = MAY_FIRST + 9 * 3600;
    assert_eq!(calculate_work_hours(start, end), -3600);
}

#[test]
fn boundaries_follow_the_start_days_date_before_the_epoch() {
    // 1969-12-31, 09:00 to 12:00: day boundaries are derived correctly for
    // negative timestamps too; the interval touches no break.
    let day = -86400;
    assert_eq!(calculate_work_hours(day + 9 * 3600, day + 12 * 3600), 10800);
}

#[test]
fn average_of_no_records_is_undefined() {
    let r = calculate_average_work_hours(Vec::new(), MAY_FIRST);
    assert_eq!(r, Err(WorkTimeError::DivisionUndefined));
}

#[test]
fn average_of_only_stale_records_is_undefined() {
    // Both records precede now - 30 days (now is 2024-06-02).
    let now = MAY_FIRST + 32 * 86400;
    let records = vec![
        WorkDay { start_time: MAY_FIRST + 9 * 3600, end_time: MAY_FIRST + 11 * 3600 },
        WorkDay { start_time: MAY_FIRST - 86400, end_time: MAY_FIRST - 86400 + 7200 },
    ];
    let r = calculate_average_work_hours(records, now);
    assert_eq!(r, Err(WorkTimeError::DivisionUndefined));
}

#[test]
fn record_starting_exactly_on_the_threshold_is_included() {
    let start = MAY_FIRST + 9 * 3600;
    let now = start + 30 * 86400;
    let records = vec![WorkDay { start_time: start, end_time: start + 7200 }];
    let avg = calculate_average_work_hours(records, now).unwrap();
    assert_eq!(avg.days, 1);
    assert_eq!(avg.total_minutes, 120);
}

#[test]
fn stale_records_are_skipped_and_the_rest_averaged() {
    // One stale record and one qualifying record spanning lunch: only the
    // latter counts, 6h30m = 390 minutes.
    let now = MAY_FIRST + 2 * 86400;
    let records = vec![
        WorkDay { start_time: MAY_FIRST - 40 * 86400, end_time: MAY_FIRST - 40 * 86400 + 7200 },
        WorkDay { start_time: MAY_FIRST + 9 * 3600, end_time: MAY_FIRST + 17 * 3600 },
    ];
    let avg = calculate_average_work_hours(records, now).unwrap();
    assert_eq!(avg.days, 1);
    assert_eq!(avg.total_minutes, 390);
    assert_eq!(hours(&avg), 6.5);
}

#[test]
fn untouched_records_average_to_the_raw_mean() {
    // Two records the rules leave untouched: 2h and 3h; the average equals
    // the plain mean of the raw spans, 2.5 hours.
    let now = MAY_FIRST + 2 * 86400;
    let records = vec![
        WorkDay { start_time: MAY_FIRST + 9 * 3600, end_time: MAY_FIRST + 11 * 3600 },
        WorkDay { start_time: MAY_FIRST + 9 * 3600, end_time: MAY_FIRST + 12 * 3600 },
    ];
    let avg = calculate_average_work_hours(records, now).unwrap();
    assert_eq!(avg.days, 2);
    assert_eq!(avg.total_minutes, 300);
    assert_eq!(hours(&avg), 2.5);
}

#[test]
fn total_minutes_round_toward_zero() {
    // A degenerate record of -3630 seconds: -60.5 minutes rounds to -60.
    let now = MAY_FIRST + 86400;
    let records = vec![
        WorkDay { start_time: MAY_FIRST + 10 * 3600 + 30, end_time: MAY_FIRST + 9 * 3600 },
    ];
    let avg = calculate_average_work_hours(records, now).unwrap();
    assert_eq!(avg.days, 1);
    assert_eq!(avg.total_minutes, -60);
}

#[test]
fn timestamp_strings_parse_to_the_instants_they_denote() {
    let raw = WorkDayUpdated {
        start_time: String::from("2024-05-01 09:00:00"),
        end_time: String::from("2024-05-01 17:00:00"),
    };
    let day = work_day_from_updated(&raw).unwrap();
    assert_eq!(day.start_time, MAY_FIRST + 9 * 3600);
    assert_eq!(day.end_time, MAY_FIRST + 17 * 3600);
}

#[test]
fn malformed_timestamp_strings_are_rejected() {
    let bad_month = WorkDayUpdated {
        start_time: String::from("2024-13-01 09:00:00"),
        end_time: String::from("2024-05-01 17:00:00"),
    };
    assert_eq!(work_day_from_updated(&bad_month), Err(WorkTimeError::MalformedInput));

    let not_a_timestamp = WorkDayUpdated {
        start_time: String::from("2024-05-01 09:00:00"),
        end_time: String::from("five o'clock"),
    };
    assert_eq!(work_day_from_updated(&not_a_timestamp), Err(WorkTimeError::MalformedInput));
}

#[test]
fn a_whole_input_converts_in_order() {
    let raw = vec![
        WorkDayUpdated {
            start_time: String::from("2024-05-01 09:00:00"),
            end_time: String::from("2024-05-01 11:00:00"),
        },
        WorkDayUpdated {
            start_time: String::from("2024-05-02 08:00:00"),
            end_time: String::from("2024-05-02 23:30:00"),
        },
    ];
    let days = work_days_from_updated(&raw).unwrap();
    assert_eq!(days.len(), 2);
    assert_eq!(days[0].start_time, MAY_FIRST + 9 * 3600);
    assert_eq!(days[1].end_time, MAY_FIRST + 86400 + 23 * 3600 + 1800);
}

#[test]
fn one_bad_record_rejects_the_whole_input() {
    let raw = vec![
        WorkDayUpdated {
            start_time: String::from("2024-05-01 09:00:00"),
            end_time: String::from("2024-05-01 11:00:00"),
        },
        WorkDayUpdated {
            start_time: String::from("2024-05-02"),
            end_time: String::from("2024-05-02 23:30:00"),
        },
    ];
    assert_eq!(work_days_from_updated(&raw), Err(WorkTimeError::MalformedInput));
}

#[test]
fn parsed_records_flow_through_to_the_average() {
    // End to end over plain values: parse two records, average them two
    // days later; the first spans lunch (6h30m), the second is untouched
    // (2h): 510 minutes over 2 days, 4.25 hours.
    let raw = vec![
        WorkDayUpdated {
            start_time: String::from("2024-05-01 09:00:00"),
            end_time: String::from("2024-05-01 17:00:00"),
        },
        WorkDayUpdated {
            start_time: String::from("2024-05-01 14:00:00"),
            end_time: String::from("2024-05-01 16:00:00"),
        },
    ];
    let days = work_days_from_updated(&raw).unwrap();
    let avg = calculate_average_work_hours(days, MAY_FIRST + 2 * 86400).unwrap();
    assert_eq!(avg.days, 2);
    assert_eq!(avg.total_minutes, 510);
    assert_eq!(hours(&avg), 4.25);
}
