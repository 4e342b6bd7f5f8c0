//! The calendar as a table: one row for each schedule, in stored order.

use crate::calendar::Calendar;
use crate::schedule::{Schedule, ScheduleView};
use crate::text::{decimal, decimal_text};
use vstd::prelude::*;
use vstd::string::StringExecFns;

verus! {

/// A row of the table as a mathematical value.
pub struct RowView {
    pub id: u64,
    pub start: Seq<char>,
    pub end: Seq<char>,
    pub subject: Seq<char>,
}

impl RowView {
    /// The row as a line of text: the identifier in decimal, the start, the
    /// end and the subject, with a tab between each two.
    pub open spec fn line(self) -> Seq<char> {
        decimal(self.id as nat) + seq!['\t'] + self.start + seq!['\t'] + self.end + seq!['\t']
            + self.subject
    }
}

/// The row that displays `schedule`: start and end are written to the minute.
pub open spec fn row_of(schedule: ScheduleView) -> RowView {
    RowView {
        id: schedule.id,
        start: schedule.start.minute_text(),
        end: schedule.end.minute_text(),
        subject: schedule.subject,
    }
}

/// The rows that display `schedules`, in the same order.
pub open spec fn rows_of(schedules: Seq<ScheduleView>) -> Seq<RowView> {
    schedules.map_values(|schedule: ScheduleView| row_of(schedule))
}

/// The header line of the table.
pub open spec fn header() -> Seq<char> {
    "ID\tSTART\tEND\tSUBJECT"@
}

/// The lines of the table of `schedules`: the header, then a line for each
/// schedule.
pub open spec fn table(schedules: Seq<ScheduleView>) -> Seq<Seq<char>> {
    seq![header()] + rows_of(schedules).map_values(|row: RowView| row.line())
}

/// The texts that `lines` hold.
pub open spec fn texts(lines: Seq<String>) -> Seq<Seq<char>> {
    lines.map_values(|line: String| line@)
}

/// What the table shows of one schedule.
#[derive(Debug, PartialEq)]
pub struct Row {
    pub id: u64,
    pub start: String,
    pub end: String,
    pub subject: String,
}

impl View for Row {
    type V = RowView;

    open spec fn view(&self) -> RowView {
        RowView { id: self.id, start: self.start@, end: self.end@, subject: self.subject@ }
    }
}

impl Row {
    /// The row that displays `schedule`.
    pub fn of(schedule: &Schedule) -> (row: Row)
        ensures
            row@ == row_of(schedule@),
    {
        Row {
            id: schedule.id,
            start: schedule.start.to_minute_text(),
            end: schedule.end.to_minute_text(),
            subject: schedule.subject.clone(),
        }
    }

    /// The row as a line of text, its four fields parted by tabs.
    pub fn line(&self) -> (line: String)
        ensures
            line@ == self@.line(),
    {
        proof {
            reveal_strlit("\t");
        }
        assert("\t"@ =~= seq!['\t']);
        let mut line = decimal_text(self.id);
        line.append("\t");
        line.append(self.start.as_str());
        line.append("\t");
        line.append(self.end.as_str());
        line.append("\t");
        line.append(self.subject.as_str());
        line
    }
}

/// The rows of the calendar, one for each schedule and in stored order.
pub fn list_rows(calendar: &Calendar) -> (rows: Vec<Row>)
    ensures
        rows@.map_values(|row: Row| row@) == rows_of(calendar@),
{
    let mut rows: Vec<Row> = Vec::new();
    let mut i: usize = 0;
    while i < calendar.schedules.len()
        invariant
            i <= calendar.schedules.len(),
            rows@.len() == i,
            forall|j: int| 0 <= j < i ==> (#[trigger] rows@[j])@ == row_of(calendar@[j]),
        decreases calendar.schedules.len() - i,
    {
        rows.push(Row::of(&calendar.schedules[i]));
        i += 1;
    }
    assert(rows@.map_values(|row: Row| row@) =~= rows_of(calendar@));
    rows
}

/// The calendar as the lines of a table: the header, then a line for each
/// schedule in stored order. The calendar is only read.
pub fn show_schedule(calendar: &Calendar) -> (lines: Vec<String>)
    ensures
        texts(lines@) == table(calendar@),
{
    let mut lines: Vec<String> = Vec::new();
    lines.push("ID\tSTART\tEND\tSUBJECT".to_owned());
    let mut i: usize = 0;
    while i < calendar.schedules.len()
        invariant
            i <= calendar.schedules.len(),
            lines@.len() == i + 1,
            lines@[0]@ == header(),
            forall|k: int|
                1 <= k <= i ==> (#[trigger] lines@[k])@ == row_of(calendar@[k - 1]).line(),
        decreases calendar.schedules.len() - i,
    {
        lines.push(Row::of(&calendar.schedules[i]).line());
        i += 1;
    }
    assert forall|k: int| 0 <= k < lines@.len() implies texts(lines@)[k] == table(
        calendar@,
    )[k] by {
        if k > 0 {
            assert(lines@[k]@ == row_of(calendar@[k - 1]).line());
            assert(rows_of(calendar@)[k - 1] == row_of(calendar@[k - 1]));
        }
    }
    assert(texts(lines@) =~= table(calendar@));
    lines
}

} // verus!
