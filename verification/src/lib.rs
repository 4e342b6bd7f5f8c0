//! A single-user calendar of time-blocked schedules.
//!
//! A [`Calendar`] keeps its schedules in the order in which they were added.
//! A schedule is only added when its time range overlaps none of the ranges
//! already there; ranges are half-open, so one that ends at the instant at
//! which another begins does not overlap it.
//!
//! The library neither reads nor writes storage. [`run_command`] takes what
//! the caller read and says what is to be shown and what is to be written.

pub mod calendar;
pub mod command;
pub mod listing;
pub mod schedule;
pub mod text;
pub mod timestamp;

pub use calendar::{add_schedule, delete_schedule, Calendar};
pub use command::{run_command, Command, LoadError, Outcome};
pub use listing::{list_rows, show_schedule, Row};
pub use schedule::Schedule;
pub use timestamp::Timestamp;
