use calendar::{Schedule, Timestamp};
use chrono::{Datelike, Timelike};

fn naive_date_time(
    year: i32,
    month: u32,
    day: u32,
    hour: u32,
    minute: u32,
    seconds: u32,
) -> Timestamp {
    let moment = chrono::NaiveDate::from_ymd_opt(year, month, day)
        .unwrap()
        .and_hms_opt(hour, minute, seconds)
        .unwrap();
    Timestamp::new(
        moment.year(),
        moment.month(),
        moment.day(),
        moment.hour(),
        moment.minute(),
        moment.second(),
        moment.nanosecond(),
    )
    .unwrap()
}

fn test_schedule_intersects_helper(h0: u32, mo: u32, h1: u32, m1: u32, expect_intersects: bool) {
    let existing_schedule = Schedule {
        id: 1,
        subject: "既存の予定".to_string(),
        start: naive_date_time(2024, 1, 1, h0, mo, 0),
        end: naive_date_time(2024, 1, 1, h1, m1, 0),
    };

    let new_schedule = Schedule {
        id: 999,
        subject: "新しい予定".to_string(),
        start: naive_date_time(2024, 1, 1, 19, 0, 0),
        end: naive_date_time(2024, 1, 1, 20, 0, 0),
    };

    assert_eq!(expect_intersects, existing_schedule.intersects(&new_schedule));
    assert_eq!(expect_intersects, new_schedule.intersects(&existing_schedule));
}

#[test]
fn test_schedule_intersects_1() {
    let existing_schedule = Schedule {
        id: 1,
        subject: "既存の予定".to_string(),
        start: naive_date_time(2024, 1, 1, 18, 15, 0),
        end: naive_date_time(2024, 1, 1, 19, 15, 0),
    };

    let new_schedule = Schedule {
        id: 2,
        subject: "新しい予定".to_string(),
        start: naive_date_time(2024, 1, 1, 18, 30, 0),
        end: naive_date_time(2024, 1, 1, 20, 0, 0),
    };

    assert!(existing_schedule.intersects(&new_schedule));
}

#[test]
fn test_schedule_intersects_2() {
    let existing_schedule = Schedule {
        id: 1,
        subject: "既存の予定".to_string(),
        start: naive_date_time(2024, 1, 1, 19, 45, 0),
        end: naive_date_time(2024, 1, 1, 20, 45, 0),
    };

    let new_schedule = Schedule {
        id: 2,
        subject: "新しい予定".to_string(),
        start: naive_date_time(2024, 1, 1, 19, 0, 0),
        end: naive_date_time(2024, 1, 1, 20, 0, 0),
    };

    assert!(existing_schedule.intersects(&new_schedule));
}

#[test]
fn test_schedule_intersects_3() {
    let existing_schedule = Schedule {
        id: 1,
        subject: "既存の予定".to_string(),
        start: naive_date_time(2024, 1, 1, 18, 30, 0),
        end: naive_date_time(2024, 1, 1, 20, 15, 0),
    };

    let new_schedule = Schedule {
        id: 2,
        subject: "新しい予定".to_string(),
        start: naive_date_time(2024, 1, 1, 19, 0, 0),
        end: naive_date_time(2024, 1, 1, 20, 0, 0),
    };

    assert!(existing_schedule.intersects(&new_schedule));
}

#[test]
fn test_schedule_intersects_4() {
    let existing_schedule = Schedule {
        id: 1,
        subject: "既存の予定".to_string(),
        start: naive_date_time(2024, 1, 1, 20, 15, 0),
        end: naive_date_time(2024, 1, 1, 20, 45, 0),
    };

    let new_schedule = Schedule {
        id: 2,
        subject: "新しい予定".to_string(),
        start: naive_date_time(2024, 1, 1, 19, 0, 0),
        end: naive_date_time(2024, 1, 1, 20, 0, 0),
    };

    assert!(!existing_schedule.intersects(&new_schedule));
}

#[test]
fn test_schedule_intersects_5() {
    let existing_schedule = Schedule {
        id: 1,
        subject: "既存の予定".to_string(),
        start: naive_date_time(2023, 12, 8, 9, 0, 0),
        end: naive_date_time(2023, 12, 8, 10, 30, 0),
    };

    let new_schedule = Schedule {
        id: 2,
        subject: "新しい予定".to_string(),
        start: naive_date_time(2023, 12, 15, 10, 0, 0),
        end: naive_date_time(2023, 12, 15, 11, 0, 0),
    };

    assert!(!existing_schedule.intersects(&new_schedule));
}

#[test]
fn test_schedule_intersects_with_helper() {
    test_schedule_intersects_helper(18, 15, 19, 15, true);
    test_schedule_intersects_helper(19, 45, 20, 45, true);
    test_schedule_intersects_helper(18, 30, 20, 15, true);
}

#[test]
fn no_intersects_before() {
    test_schedule_intersects_helper(18, 15, 18, 45, false);
}

#[test]
fn intersects_start() {
    test_schedule_intersects_helper(18, 15, 19, 15, true);
}

#[test]
fn intersects_end() {
    test_schedule_intersects_helper(19, 15, 19, 45, true);
}

#[test]
fn no_intersects_after() {
    test_schedule_intersects_helper(20, 15, 20, 45, false);
}

#[test]
fn touching_ranges_do_not_intersect() {
    // One ends at 19:00, the instant at which the other begins.
    test_schedule_intersects_helper(18, 0, 19, 0, false);
    // One begins at 20:00, the instant at which the other ends.
    test_schedule_intersects_helper(20, 0, 21, 0, false);
}

#[test]
fn contained_and_containing_ranges_intersect() {
    test_schedule_intersects_helper(19, 15, 19, 45, true);
    test_schedule_intersects_helper(18, 0, 21, 0, true);
    test_schedule_intersects_helper(19, 0, 20, 0, true);
}

#[test]
fn same_clock_time_on_another_date_does_not_intersect() {
    let existing_schedule = Schedule {
        id: 1,
        subject: "existing".to_string(),
        start: naive_date_time(2023, 12, 8, 9, 0, 0),
        end: naive_date_time(2023, 12, 8, 10, 30, 0),
    };
    let new_schedule = Schedule {
        id: 2,
        subject: "new".to_string(),
        start: naive_date_time(2024, 12, 15, 10, 0, 0),
        end: naive_date_time(2024, 12, 15, 11, 0, 0),
    };
    assert!(!existing_schedule.intersects(&new_schedule));
    assert!(!new_schedule.intersects(&existing_schedule));
}

#[test]
fn ranges_across_midnight_intersect() {
    let night = Schedule {
        id: 1,
        subject: "night".to_string(),
        start: naive_date_time(2024, 2, 28, 23, 0, 0),
        end: naive_date_time(2024, 2, 29, 1, 0, 0),
    };
    let early = Schedule {
        id: 2,
        subject: "early".to_string(),
        start: naive_date_time(2024, 2, 29, 0, 30, 0),
        end: naive_date_time(2024, 2, 29, 2, 0, 0),
    };
    assert!(night.intersects(&early));
    assert!(early.intersects(&night));
}

#[test]
fn intersects_is_symmetric_on_a_grid() {
    let marks = [
        naive_date_time(2023, 12, 31, 23, 59, 59),
        naive_date_time(2024, 1, 1, 0, 0, 0),
        naive_date_time(2024, 1, 1, 12, 0, 0),
        naive_date_time(2024, 1, 2, 0, 0, 0),
        naive_date_time(2025, 1, 1, 0, 0, 0),
    ];
    for a_start in marks {
        for a_end in marks {
            for b_start in marks {
                for b_end in marks {
                    let a = Schedule { id: 0, subject: String::new(), start: a_start, end: a_end };
                    let b = Schedule { id: 1, subject: String::new(), start: b_start, end: b_end };
                    assert_eq!(a.intersects(&b), b.intersects(&a));
                    let expected = a_start.is_before(&b_end) && b_start.is_before(&a_end);
                    assert_eq!(a.intersects(&b), expected);
                }
            }
        }
    }
}

#[test]
fn overlaps_takes_the_range_by_its_ends() {
    let existing = Schedule {
        id: 7,
        subject: "existing".to_string(),
        start: naive_date_time(2024, 1, 1, 18, 15, 0),
        end: naive_date_time(2024, 1, 1, 18, 45, 0),
    };
    let seven = naive_date_time(2024, 1, 1, 19, 0, 0);
    let eight = naive_date_time(2024, 1, 1, 20, 0, 0);
    let half_past_six = naive_date_time(2024, 1, 1, 18, 30, 0);
    assert!(!existing.overlaps(&seven, &eight));
    assert!(existing.overlaps(&half_past_six, &eight));
}
