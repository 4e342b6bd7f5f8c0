//! Schedules and the overlap of their time ranges.

use crate::timestamp::{
    lemma_precedes_asymmetric, lemma_precedes_irreflexive, lemma_precedes_total,
    lemma_precedes_transitive, Civil, Timestamp,
};
use vstd::prelude::*;

verus! {

/// A schedule as a mathematical value.
pub struct ScheduleView {
    pub id: u64,
    pub subject: Seq<char>,
    pub start: Civil,
    pub end: Civil,
}

impl ScheduleView {
    /// Whether the half-open range of the schedule overlaps the half-open
    /// range from `start` up to `end`.
    pub open spec fn overlaps(self, start: Civil, end: Civil) -> bool {
        self.start.precedes(end) && start.precedes(self.end)
    }

    /// Whether the half-open ranges of two schedules overlap.
    pub open spec fn intersects(self, other: ScheduleView) -> bool {
        self.overlaps(other.start, other.end)
    }

    /// Whether the stretch of time from `from` to the later `until` lies
    /// within the range of the schedule.
    pub open spec fn covers(self, from: Civil, until: Civil) -> bool {
        self.start.at_or_before(from) && from.precedes(until) && until.at_or_before(self.end)
    }
}

/// One entry of a calendar: a subject and the time that it takes, from
/// `start` up to but not including `end`.
///
/// Nothing asks that `start` be earlier than `end`.
#[derive(Debug, PartialEq)]
pub struct Schedule {
    pub id: u64,
    pub subject: String,
    pub start: Timestamp,
    pub end: Timestamp,
}

impl View for Schedule {
    type V = ScheduleView;

    open spec fn view(&self) -> ScheduleView {
        ScheduleView { id: self.id, subject: self.subject@, start: self.start@, end: self.end@ }
    }
}

impl Clone for Schedule {
    fn clone(&self) -> (copy: Schedule)
        ensures
            copy == *self,
    {
        Schedule { id: self.id, subject: self.subject.clone(), start: self.start, end: self.end }
    }
}

impl Schedule {
    /// Whether the time range of the schedule overlaps the range from `start`
    /// up to `end`.
    pub fn overlaps(&self, start: &Timestamp, end: &Timestamp) -> (hit: bool)
        ensures
            hit == self@.overlaps(start@, end@),
    {
        self.start.is_before(end) && start.is_before(&self.end)
    }

    /// Whether the time ranges of the two schedules overlap. Ranges that only
    /// touch, one ending at the instant at which the other begins, do not.
    pub fn intersects(&self, other: &Schedule) -> (hit: bool)
        ensures
            hit == self@.intersects(other@),
    {
        self.overlaps(&other.start, &other.end)
    }
}

/// Overlap is symmetric.
pub proof fn lemma_intersects_symmetric(a: ScheduleView, b: ScheduleView)
    ensures
        a.intersects(b) == b.intersects(a),
{
}

/// A schedule that ends at the instant at which another begins, or earlier,
/// does not overlap it.
pub proof fn lemma_apart_or_touching_never_intersect(a: ScheduleView, b: ScheduleView)
    requires
        a.end.at_or_before(b.start),
    ensures
        !a.intersects(b),
        !b.intersects(a),
{
    if a.end == b.start {
        lemma_precedes_irreflexive(a.end);
    } else {
        lemma_precedes_asymmetric(a.end, b.start);
    }
}

/// Two schedules whose ranges share a stretch of time overlap.
pub proof fn lemma_shared_time_intersects(
    a: ScheduleView,
    b: ScheduleView,
    from: Civil,
    until: Civil,
)
    requires
        a.covers(from, until),
        b.covers(from, until),
    ensures
        a.intersects(b),
{
    lemma_reaches(a.start, from, until, b.end);
    lemma_reaches(b.start, from, until, a.end);
}

/// Two overlapping schedules, each beginning before it ends, share the time
/// from the later of their starts to the earlier of their ends.
pub proof fn lemma_intersecting_share_time(a: ScheduleView, b: ScheduleView)
    requires
        a.start.precedes(a.end),
        b.start.precedes(b.end),
        a.intersects(b),
    ensures
        ({
            let from = if a.start.precedes(b.start) {
                b.start
            } else {
                a.start
            };
            let until = if a.end.precedes(b.end) {
                a.end
            } else {
                b.end
            };
            a.covers(from, until) && b.covers(from, until)
        }),
{
    lemma_precedes_total(a.start, b.start);
    lemma_precedes_total(a.end, b.end);
}

/// From `first` one reaches `last` strictly, through a strict step from
/// `from` to `until`.
proof fn lemma_reaches(first: Civil, from: Civil, until: Civil, last: Civil)
    requires
        first.at_or_before(from),
        from.precedes(until),
        until.at_or_before(last),
    ensures
        first.precedes(last),
{
    if first != from {
        lemma_precedes_transitive(first, from, until);
    }
    if until != last {
        lemma_precedes_transitive(first, until, last);
    }
}

} // verus!
