use calendar::{list_rows, show_schedule, Calendar, Row, Schedule, Timestamp};

fn stamp(year: i32, month: u32, day: u32, hour: u32, minute: u32) -> Timestamp {
    Timestamp::new(year, month, day, hour, minute, 0, 0).unwrap()
}

fn sample_calendar() -> Calendar {
    Calendar {
        schedules: vec![
            Schedule {
                id: 0,
                subject: "Meeting".to_string(),
                start: stamp(2024, 1, 1, 18, 0),
                end: stamp(2024, 1, 1, 19, 0),
            },
            Schedule {
                id: 12,
                subject: "予定 2".to_string(),
                start: stamp(2023, 12, 31, 23, 30),
                end: stamp(2024, 1, 1, 0, 5),
            },
        ],
    }
}

#[test]
fn show_schedule_of_an_empty_calendar_is_the_header_alone() {
    assert_eq!(show_schedule(&Calendar::new()), vec!["ID\tSTART\tEND\tSUBJECT".to_string()]);
}

#[test]
fn show_schedule_writes_a_line_for_each_schedule_in_stored_order() {
    let calendar = sample_calendar();
    let before = calendar.clone();
    assert_eq!(
        show_schedule(&calendar),
        vec![
            "ID\tSTART\tEND\tSUBJECT".to_string(),
            "0\t2024-01-01 18:00\t2024-01-01 19:00\tMeeting".to_string(),
            "12\t2023-12-31 23:30\t2024-01-01 00:05\t予定 2".to_string(),
        ]
    );
    assert_eq!(calendar, before);
}

#[test]
fn list_rows_gives_the_four_fields_of_each_schedule() {
    assert_eq!(list_rows(&Calendar::new()), Vec::<Row>::new());
    assert_eq!(
        list_rows(&sample_calendar()),
        vec![
            Row {
                id: 0,
                start: "2024-01-01 18:00".to_string(),
                end: "2024-01-01 19:00".to_string(),
                subject: "Meeting".to_string(),
            },
            Row {
                id: 12,
                start: "2023-12-31 23:30".to_string(),
                end: "2024-01-01 00:05".to_string(),
                subject: "予定 2".to_string(),
            },
        ]
    );
}

#[test]
fn row_line_parts_the_fields_by_tabs() {
    let row = Row {
        id: 18_446_744_073_709_551_615,
        start: "a".to_string(),
        end: String::new(),
        subject: "b\tc".to_string(),
    };
    assert_eq!(row.line(), "18446744073709551615\ta\t\tb\tc");
    let schedule = Schedule {
        id: 3,
        subject: "Lunch".to_string(),
        start: stamp(2024, 1, 1, 12, 0),
        end: stamp(2024, 1, 1, 13, 0),
    };
    assert_eq!(Row::of(&schedule).line(), "3\t2024-01-01 12:00\t2024-01-01 13:00\tLunch");
}

#[test]
fn show_schedule_does_not_sort() {
    let calendar = Calendar {
        schedules: vec![
            Schedule {
                id: 1,
                subject: "late".to_string(),
                start: stamp(2024, 5, 1, 10, 0),
                end: stamp(2024, 5, 1, 11, 0),
            },
            Schedule {
                id: 0,
                subject: "early".to_string(),
                start: stamp(2024, 4, 1, 10, 0),
                end: stamp(2024, 4, 1, 11, 0),
            },
        ],
    };
    let lines = show_schedule(&calendar);
    assert_eq!(lines.len(), 3);
    assert_eq!(lines[1], "1\t2024-05-01 10:00\t2024-05-01 11:00\tlate");
    assert_eq!(lines[2], "0\t2024-04-01 10:00\t2024-04-01 11:00\tearly");
}
