//! The calendar: schedules in the order in which they were added.

use crate::schedule::{Schedule, ScheduleView};
use crate::timestamp::{Civil, Timestamp};
use vstd::prelude::*;

verus! {

/// An ordered collection of schedules.
#[derive(Debug, PartialEq)]
pub struct Calendar {
    pub schedules: Vec<Schedule>,
}

impl View for Calendar {
    type V = Seq<ScheduleView>;

    open spec fn view(&self) -> Seq<ScheduleView> {
        self.schedules@.map_values(|schedule: Schedule| schedule@)
    }
}

/// Whether some schedule among `schedules` overlaps the range from `start` to
/// `end`.
pub open spec fn has_conflict(schedules: Seq<ScheduleView>, start: Civil, end: Civil) -> bool {
    exists|i: int| 0 <= i < schedules.len() && (#[trigger] schedules[i]).overlaps(start, end)
}

/// Whether `i` is the place of the first schedule among `schedules` that
/// overlaps the range from `start` to `end`.
pub open spec fn is_first_conflict(
    schedules: Seq<ScheduleView>,
    start: Civil,
    end: Civil,
    i: int,
) -> bool {
    &&& 0 <= i < schedules.len()
    &&& schedules[i].overlaps(start, end)
    &&& forall|j: int| 0 <= j < i ==> !(#[trigger] schedules[j]).overlaps(start, end)
}

/// Whether no two schedules among `schedules` overlap.
pub open spec fn free_of_overlap(schedules: Seq<ScheduleView>) -> bool {
    forall|i: int, j: int|
        0 <= i < j < schedules.len() ==> !(#[trigger] schedules[i]).intersects(
            #[trigger] schedules[j],
        )
}

/// Whether some schedule among `schedules` carries the identifier `id`.
pub open spec fn has_id(schedules: Seq<ScheduleView>, id: u64) -> bool {
    exists|i: int| 0 <= i < schedules.len() && (#[trigger] schedules[i]).id == id
}

/// Whether `i` is the place of the first schedule among `schedules` that
/// carries the identifier `id`.
pub open spec fn is_first_with_id(schedules: Seq<ScheduleView>, id: u64, i: int) -> bool {
    &&& 0 <= i < schedules.len()
    &&& schedules[i].id == id
    &&& forall|j: int| 0 <= j < i ==> (#[trigger] schedules[j]).id != id
}

impl Clone for Calendar {
    fn clone(&self) -> (copy: Calendar)
        ensures
            copy.schedules@ == self.schedules@,
            copy@ == self@,
    {
        let mut schedules: Vec<Schedule> = Vec::new();
        let mut i: usize = 0;
        while i < self.schedules.len()
            invariant
                i <= self.schedules.len(),
                schedules@ == self.schedules@.take(i as int),
            decreases self.schedules.len() - i,
        {
            schedules.push(self.schedules[i].clone());
            assert(schedules@ =~= self.schedules@.take(i + 1));
            i += 1;
        }
        assert(schedules@ =~= self.schedules@);
        Calendar { schedules }
    }
}

impl Calendar {
    /// A calendar without schedules.
    pub fn new() -> (calendar: Calendar)
        ensures
            calendar@ == Seq::<ScheduleView>::empty(),
    {
        let calendar = Calendar { schedules: Vec::new() };
        assert(calendar@ =~= Seq::<ScheduleView>::empty());
        calendar
    }

    /// The place of the first schedule that overlaps the range from `start`
    /// to `end`, or `None` where no schedule overlaps it.
    pub fn first_conflict(&self, start: Timestamp, end: Timestamp) -> (found: Option<usize>)
        ensures
            found is Some <==> has_conflict(self@, start@, end@),
            found matches Some(i) ==> is_first_conflict(self@, start@, end@, i as int),
    {
        let mut i: usize = 0;
        while i < self.schedules.len()
            invariant
                i <= self.schedules.len(),
                forall|j: int| 0 <= j < i ==> !(#[trigger] self@[j]).overlaps(start@, end@),
            decreases self.schedules.len() - i,
        {
            if self.schedules[i].overlaps(&start, &end) {
                assert(self@[i as int].overlaps(start@, end@));
                return Some(i);
            }
            i += 1;
        }
        None
    }
}

/// Adds a schedule with the given subject and range at the end of the
/// calendar, unless its range overlaps that of a schedule already there.
///
/// The new schedule's identifier is the number of schedules that the calendar
/// held before. Returns whether the schedule was added; where it was not, the
/// calendar is as it was.
pub fn add_schedule(
    calendar: &mut Calendar,
    subject: String,
    start: Timestamp,
    end: Timestamp,
) -> (added: bool)
    ensures
        added == !has_conflict(old(calendar)@, start@, end@),
        added ==> final(calendar)@ == old(calendar)@.push(
            ScheduleView {
                id: old(calendar)@.len() as u64,
                subject: subject@,
                start: start@,
                end: end@,
            },
        ),
        !added ==> *final(calendar) == *old(calendar),
        old(calendar)@.len() == 0 ==> added && final(calendar)@[0].id == 0,
{
    match calendar.first_conflict(start, end) {
        Some(_) => false,
        None => {
            let id = calendar.schedules.len() as u64;
            calendar.schedules.push(Schedule { id, subject, start, end });
            assert(calendar@ =~= old(calendar)@.push(
                ScheduleView { id, subject: subject@, start: start@, end: end@ },
            ));
            true
        },
    }
}

/// Removes the first schedule that carries the identifier `id`; the schedules
/// behind it move up by one place and keep their order.
///
/// Returns whether a schedule was removed; where none carries `id`, the
/// calendar is as it was.
pub fn delete_schedule(calendar: &mut Calendar, id: u64) -> (removed: bool)
    ensures
        removed == has_id(old(calendar)@, id),
        removed ==> exists|i: int|
            is_first_with_id(old(calendar)@, id, i) && final(calendar)@ == old(calendar)@.remove(
                i,
            ),
        removed ==> final(calendar)@.len() == old(calendar)@.len() - 1,
        !removed ==> *final(calendar) == *old(calendar),
{
    let mut i: usize = 0;
    while i < calendar.schedules.len()
        invariant
            *calendar == *old(calendar),
            i <= calendar.schedules.len(),
            forall|j: int| 0 <= j < i ==> (#[trigger] calendar@[j]).id != id,
        decreases calendar.schedules.len() - i,
    {
        if calendar.schedules[i].id == id {
            calendar.schedules.remove(i);
            assert(calendar@ =~= old(calendar)@.remove(i as int));
            assert(is_first_with_id(old(calendar)@, id, i as int));
            return true;
        }
        i += 1;
    }
    false
}

/// A calendar in which no two schedules overlap stays so when a schedule is
/// added that is in conflict with none of them.
pub proof fn lemma_adding_keeps_free_of_overlap(
    schedules: Seq<ScheduleView>,
    candidate: ScheduleView,
)
    requires
        free_of_overlap(schedules),
        !has_conflict(schedules, candidate.start, candidate.end),
    ensures
        free_of_overlap(schedules.push(candidate)),
{
    let grown = schedules.push(candidate);
    assert forall|i: int, j: int| 0 <= i < j < grown.len() implies !(#[trigger] grown[i])
        .intersects(#[trigger] grown[j]) by {
        if j == schedules.len() {
            assert(!schedules[i].overlaps(candidate.start, candidate.end));
        } else {
            assert(!schedules[i].intersects(schedules[j]));
        }
    }
}

/// A calendar in which no two schedules overlap stays so when a schedule is
/// removed.
pub proof fn lemma_removing_keeps_free_of_overlap(schedules: Seq<ScheduleView>, at: int)
    requires
        free_of_overlap(schedules),
        0 <= at < schedules.len(),
    ensures
        free_of_overlap(schedules.remove(at)),
{
    let rest = schedules.remove(at);
    assert forall|i: int, j: int| 0 <= i < j < rest.len() implies !(#[trigger] rest[i])
        .intersects(#[trigger] rest[j]) by {
        let before = if i < at {
            i
        } else {
            i + 1
        };
        let after = if j < at {
            j
        } else {
            j + 1
        };
        assert(!schedules[before].intersects(schedules[after]));
    }
}

} // verus!
