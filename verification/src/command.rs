//! What each command does with the calendar that was read from storage.
//!
//! Reading and writing the stored calendar is left to the caller. The caller
//! hands over what reading gave, and is told what to show and what to write.

use crate::calendar::{
    add_schedule, delete_schedule, has_conflict, has_id, is_first_conflict, is_first_with_id,
    Calendar,
};
use crate::listing::{show_schedule, table, texts};
use crate::schedule::{Schedule, ScheduleView};
use crate::timestamp::{Civil, Timestamp};
use vstd::prelude::*;

verus! {

/// A command of the calendar.
#[derive(Debug, PartialEq)]
pub enum Command {
    /// Show every schedule.
    List,
    /// Add a schedule with this subject, from `start` up to `end`.
    Add { subject: String, start: Timestamp, end: Timestamp },
    /// Remove the first schedule that carries this identifier.
    Delete { id: u64 },
}

/// Why no calendar could be read from storage.
#[derive(Debug, Clone, Copy, PartialEq, Eq)]
pub enum LoadError {
    /// The stored calendar is missing or cannot be opened.
    Io,
    /// What is stored is not a calendar.
    Deserialization,
}

/// What a command came to.
#[derive(Debug, PartialEq)]
pub enum Outcome {
    /// The table of the calendar; nothing is to be written.
    Listed { lines: Vec<String> },
    /// The schedule was added, and `calendar` is to be written. Where
    /// `created` holds, no calendar was stored before and storage is to be
    /// set up first.
    Added { calendar: Calendar, created: bool },
    /// The schedule overlaps `existing`; nothing is to be written.
    Conflict { existing: Schedule },
    /// A schedule was removed, and `calendar` is to be written.
    Deleted { calendar: Calendar },
    /// No schedule carries the identifier; nothing is to be written.
    NotFound,
    /// There is no calendar to work on; nothing is to be written.
    Unavailable { error: LoadError },
}

/// Whether `outcome` answers the listing of what was read.
pub open spec fn answers_list(loaded: Result<Calendar, LoadError>, outcome: Outcome) -> bool {
    match loaded {
        Ok(calendar) => outcome matches Outcome::Listed { lines } && texts(lines@) == table(
            calendar@,
        ),
        Err(error) => outcome == (Outcome::Unavailable { error }),
    }
}

/// Whether `outcome` answers the adding of a schedule to what was read.
///
/// A calendar that is missing from storage counts as empty, and storage is
/// then created. What is stored but is no calendar is never written over.
pub open spec fn answers_add(
    loaded: Result<Calendar, LoadError>,
    subject: Seq<char>,
    start: Civil,
    end: Civil,
    outcome: Outcome,
) -> bool {
    match loaded {
        Ok(calendar) => if has_conflict(calendar@, start, end) {
            outcome matches Outcome::Conflict { existing } && exists|i: int|
                is_first_conflict(calendar@, start, end, i) && existing@ == calendar@[i]
        } else {
            outcome matches Outcome::Added { calendar: grown, created } && !created && grown@
                == calendar@.push(
                ScheduleView { id: calendar@.len() as u64, subject, start, end },
            )
        },
        Err(LoadError::Io) => outcome matches Outcome::Added { calendar: grown, created }
            && created && grown@ == seq![ScheduleView { id: 0, subject, start, end }],
        Err(LoadError::Deserialization) => outcome == (Outcome::Unavailable {
            error: LoadError::Deserialization,
        }),
    }
}

/// Whether `outcome` answers the removal of `id` from what was read.
pub open spec fn answers_delete(
    loaded: Result<Calendar, LoadError>,
    id: u64,
    outcome: Outcome,
) -> bool {
    match loaded {
        Ok(calendar) => if has_id(calendar@, id) {
            outcome matches Outcome::Deleted { calendar: rest } && exists|i: int|
                is_first_with_id(calendar@, id, i) && rest@ == calendar@.remove(i)
        } else {
            outcome == Outcome::NotFound
        },
        Err(error) => outcome == (Outcome::Unavailable { error }),
    }
}

/// Whether `outcome` answers `command` on what was read.
pub open spec fn answers(
    loaded: Result<Calendar, LoadError>,
    command: Command,
    outcome: Outcome,
) -> bool {
    match command {
        Command::List => answers_list(loaded, outcome),
        Command::Add { subject, start, end } => answers_add(
            loaded,
            subject@,
            start@,
            end@,
            outcome,
        ),
        Command::Delete { id } => answers_delete(loaded, id, outcome),
    }
}

/// Adds a schedule to `calendar`, or names the schedule that stands in its
/// way.
fn run_add(
    calendar: Calendar,
    subject: String,
    start: Timestamp,
    end: Timestamp,
    created: bool,
) -> (outcome: Outcome)
    ensures
        if has_conflict(calendar@, start@, end@) {
            outcome matches Outcome::Conflict { existing } && exists|i: int|
                is_first_conflict(calendar@, start@, end@, i) && existing@ == calendar@[i]
        } else {
            outcome matches Outcome::Added { calendar: grown, created: fresh } && fresh == created
                && grown@ == calendar@.push(
                ScheduleView {
                    id: calendar@.len() as u64,
                    subject: subject@,
                    start: start@,
                    end: end@,
                },
            )
        },
{
    let mut calendar = calendar;
    match calendar.first_conflict(start, end) {
        Some(i) => {
            let existing = calendar.schedules[i].clone();
            assert(is_first_conflict(calendar@, start@, end@, i as int) && existing@
                == calendar@[i as int]);
            Outcome::Conflict { existing }
        },
        None => {
            // Nothing stands in the way, so the schedule is added.
            add_schedule(&mut calendar, subject, start, end);
            Outcome::Added { calendar, created }
        },
    }
}

/// Carries out `command` on what was read from storage.
///
/// Listing and removing need a calendar. Adding makes do without one that is
/// missing: it starts from an empty calendar and asks for storage to be
/// created.
pub fn run_command(loaded: Result<Calendar, LoadError>, command: Command) -> (outcome: Outcome)
    ensures
        answers(loaded, command, outcome),
{
    match command {
        Command::List => match loaded {
            Ok(calendar) => Outcome::Listed { lines: show_schedule(&calendar) },
            Err(error) => Outcome::Unavailable { error },
        },
        Command::Add { subject, start, end } => match loaded {
            Ok(calendar) => run_add(calendar, subject, start, end, false),
            Err(LoadError::Io) => {
                let calendar = Calendar::new();
                let outcome = run_add(calendar, subject, start, end, true);
                assert(calendar@.push(
                    ScheduleView { id: 0, subject: subject@, start: start@, end: end@ },
                ) =~= seq![ScheduleView { id: 0, subject: subject@, start: start@, end: end@ }]);
                outcome
            },
            Err(LoadError::Deserialization) => Outcome::Unavailable {
                error: LoadError::Deserialization,
            },
        },
        Command::Delete { id } => match loaded {
            Ok(calendar) => {
                let mut calendar = calendar;
                if delete_schedule(&mut calendar, id) {
                    Outcome::Deleted { calendar }
                } else {
                    Outcome::NotFound
                }
            },
            Err(error) => Outcome::Unavailable { error },
        },
    }
}

} // verus!
