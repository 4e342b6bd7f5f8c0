//! Naive local timestamps: a civil date and a time of day, without a time zone.

use crate::text::{decimal, digit};
use vstd::prelude::*;

verus! {

/// The earliest year that a timestamp can lie in.
pub const MIN_YEAR: i32 = -262_143;

/// The latest year that a timestamp can lie in.
pub const MAX_YEAR: i32 = 262_142;

/// The pattern that displays a timestamp to the minute.
pub const MINUTE_PATTERN: &'static str = "%Y-%m-%d %H:%M";

/// The fields of a timestamp as mathematical integers.
pub struct Civil {
    pub year: int,
    pub month: int,
    pub day: int,
    pub hour: int,
    pub minute: int,
    pub second: int,
    pub nano: int,
}

/// Whether `year` is a leap year of the proleptic Gregorian calendar.
pub open spec fn is_leap_year(year: int) -> bool {
    year % 4 == 0 && (year % 100 != 0 || year % 400 == 0)
}

/// The number of days of a month, for `month` from 1 to 12.
pub open spec fn days_in_month(year: int, month: int) -> int {
    if month == 2 {
        if is_leap_year(year) {
            29
        } else {
            28
        }
    } else if month == 4 || month == 6 || month == 9 || month == 11 {
        30
    } else {
        31
    }
}

/// `n` written with two digits, for `n` from 0 to 99.
pub open spec fn two_digits(n: int) -> Seq<char> {
    seq![digit(n / 10), digit(n % 10)]
}

/// `n` written with four digits where it is below 10000, and in full above.
pub open spec fn four_digits_or_more(n: nat) -> Seq<char> {
    if n < 10000 {
        seq![
            digit(n as int / 1000),
            digit(n as int / 100 % 10),
            digit(n as int / 10 % 10),
            digit(n as int % 10),
        ]
    } else {
        decimal(n)
    }
}

/// A year as it is displayed: four digits from 0 to 9999, and otherwise a
/// sign followed by at least four digits.
pub open spec fn year_text(year: int) -> Seq<char> {
    if 0 <= year < 10000 {
        four_digits_or_more(year as nat)
    } else if year < 0 {
        seq!['-'] + four_digits_or_more((-year) as nat)
    } else {
        seq!['+'] + four_digits_or_more(year as nat)
    }
}

/// The fields of a timestamp, taken as they are given to [`Timestamp::new`].
pub open spec fn civil_of(
    year: i32,
    month: u32,
    day: u32,
    hour: u32,
    minute: u32,
    second: u32,
    nano: u32,
) -> Civil {
    Civil {
        year: year as int,
        month: month as int,
        day: day as int,
        hour: hour as int,
        minute: minute as int,
        second: second as int,
        nano: nano as int,
    }
}

impl Civil {
    /// Whether the fields name a day that exists and a time of day on it.
    ///
    /// A nanosecond count of a thousand million or more stands for a leap
    /// second, and only the last second of a minute can carry one.
    pub open spec fn is_valid(self) -> bool {
        &&& MIN_YEAR <= self.year <= MAX_YEAR
        &&& 1 <= self.month <= 12
        &&& 1 <= self.day <= days_in_month(self.year, self.month)
        &&& 0 <= self.hour < 24
        &&& 0 <= self.minute < 60
        &&& 0 <= self.second < 60
        &&& 0 <= self.nano < 2_000_000_000
        &&& (self.nano >= 1_000_000_000 ==> self.second == 59)
    }

    /// Whether `self` is strictly earlier than `other`: the fields are
    /// compared from the year down to the nanosecond.
    pub open spec fn precedes(self, other: Civil) -> bool {
        if self.year != other.year {
            self.year < other.year
        } else if self.month != other.month {
            self.month < other.month
        } else if self.day != other.day {
            self.day < other.day
        } else if self.hour != other.hour {
            self.hour < other.hour
        } else if self.minute != other.minute {
            self.minute < other.minute
        } else if self.second != other.second {
            self.second < other.second
        } else {
            self.nano < other.nano
        }
    }

    /// Whether `self` is `other` or earlier.
    pub open spec fn at_or_before(self, other: Civil) -> bool {
        self == other || self.precedes(other)
    }

    /// The timestamp to the minute, as `YYYY-MM-DD HH:MM`.
    pub open spec fn minute_text(self) -> Seq<char> {
        year_text(self.year) + seq!['-'] + two_digits(self.month) + seq!['-'] + two_digits(
            self.day,
        ) + seq![' '] + two_digits(self.hour) + seq![':'] + two_digits(self.minute)
    }
}

/// A naive local timestamp.
///
/// Every value names a day that exists in the proleptic Gregorian calendar
/// and a time of day on it.
#[derive(Debug, Clone, Copy, PartialEq, Eq)]
pub struct Timestamp {
    year: i32,
    month: u32,
    day: u32,
    hour: u32,
    minute: u32,
    second: u32,
    nano: u32,
}

impl View for Timestamp {
    type V = Civil;

    closed spec fn view(&self) -> Civil {
        civil_of(
            self.year,
            self.month,
            self.day,
            self.hour,
            self.minute,
            self.second,
            self.nano,
        )
    }
}

/// Whether `year`, which lies in the range of timestamps, is a leap year.
fn leap_year(year: i32) -> (leap: bool)
    requires
        MIN_YEAR <= year <= MAX_YEAR,
    ensures
        leap == is_leap_year(year as int),
{
    // 262400 is a multiple of 400 that lifts every year above zero.
    let lifted: u32 = (year + 262_400) as u32;
    assert(lifted as int % 4 == year as int % 4);
    assert(lifted as int % 100 == year as int % 100);
    assert(lifted as int % 400 == year as int % 400);
    lifted % 4 == 0 && (lifted % 100 != 0 || lifted % 400 == 0)
}

/// The number of days of a month of a year in the range of timestamps.
fn month_length(year: i32, month: u32) -> (days: u32)
    requires
        MIN_YEAR <= year <= MAX_YEAR,
        1 <= month <= 12,
    ensures
        days == days_in_month(year as int, month as int),
{
    if month == 2 {
        if leap_year(year) {
            29
        } else {
            28
        }
    } else if month == 4 || month == 6 || month == 9 || month == 11 {
        30
    } else {
        31
    }
}

impl Timestamp {
    #[verifier::type_invariant]
    spec fn valid(self) -> bool {
        self@.is_valid()
    }

    /// Makes a timestamp from its fields, or `None` where they name no day
    /// that exists or no time of day.
    pub fn new(
        year: i32,
        month: u32,
        day: u32,
        hour: u32,
        minute: u32,
        second: u32,
        nano: u32,
    ) -> (made: Option<Timestamp>)
        ensures
            made is Some <==> civil_of(year, month, day, hour, minute, second, nano).is_valid(),
            made matches Some(t) ==> t@ == civil_of(year, month, day, hour, minute, second, nano),
    {
        if year < MIN_YEAR || year > MAX_YEAR || month < 1 || month > 12 || day < 1 {
            return None;
        }
        if day > month_length(year, month) {
            return None;
        }
        if hour >= 24 || minute >= 60 || second >= 60 || nano >= 2_000_000_000 {
            return None;
        }
        if nano >= 1_000_000_000 && second != 59 {
            return None;
        }
        Some(Timestamp { year, month, day, hour, minute, second, nano })
    }

    /// The year.
    pub fn year(&self) -> (year: i32)
        ensures
            year == self@.year,
            self@.is_valid(),
    {
        proof {
            use_type_invariant(self);
        }
        self.year
    }

    /// The month of the year, from 1 to 12.
    pub fn month(&self) -> (month: u32)
        ensures
            month == self@.month,
            self@.is_valid(),
    {
        proof {
            use_type_invariant(self);
        }
        self.month
    }

    /// The day of the month, from 1.
    pub fn day(&self) -> (day: u32)
        ensures
            day == self@.day,
            self@.is_valid(),
    {
        proof {
            use_type_invariant(self);
        }
        self.day
    }

    /// The hour of the day, from 0 to 23.
    pub fn hour(&self) -> (hour: u32)
        ensures
            hour == self@.hour,
            self@.is_valid(),
    {
        proof {
            use_type_invariant(self);
        }
        self.hour
    }

    /// The minute of the hour, from 0 to 59.
    pub fn minute(&self) -> (minute: u32)
        ensures
            minute == self@.minute,
            self@.is_valid(),
    {
        proof {
            use_type_invariant(self);
        }
        self.minute
    }

    /// The second of the minute, from 0 to 59.
    pub fn second(&self) -> (second: u32)
        ensures
            second == self@.second,
            self@.is_valid(),
    {
        proof {
            use_type_invariant(self);
        }
        self.second
    }

    /// The nanoseconds since the second began; a thousand million or more
    /// during a leap second.
    pub fn nano(&self) -> (nano: u32)
        ensures
            nano == self@.nano,
            self@.is_valid(),
    {
        proof {
            use_type_invariant(self);
        }
        self.nano
    }

    /// Whether `self` is strictly earlier than `other`.
    pub fn is_before(&self, other: &Timestamp) -> (before: bool)
        ensures
            before == self@.precedes(other@),
    {
        if self.year != other.year {
            self.year < other.year
        } else if self.month != other.month {
            self.month < other.month
        } else if self.day != other.day {
            self.day < other.day
        } else if self.hour != other.hour {
            self.hour < other.hour
        } else if self.minute != other.minute {
            self.minute < other.minute
        } else if self.second != other.second {
            self.second < other.second
        } else {
            self.nano < other.nano
        }
    }

    /// The timestamp to the minute, as `YYYY-MM-DD HH:MM`.
    pub fn to_minute_text(&self) -> (text: String)
        ensures
            text@ == self@.minute_text(),
    {
        proof {
            use_type_invariant(self);
        }
        format_civil(self, MINUTE_PATTERN)
    }
}

/// Renders `at` with chrono's `NaiveDateTime::format`, after building the
/// chrono value with `NaiveDate::from_ymd_opt` and `and_hms_nano_opt`.
///
/// Nothing here is proved. The contract claims, for the pattern
/// `%Y-%m-%d %H:%M` alone, what chrono documents of its five specifiers:
/// `%Y` writes the year with four digits, and with a sign in front where it
/// lies outside 0 to 9999; `%m`, `%d`, `%H` and `%M` write two digits each;
/// every other character of the pattern is written as it stands. It also
/// relies on chrono accepting every valid timestamp, so that the value can be
/// built.
#[verifier::external_body]
fn format_civil(at: &Timestamp, pattern: &str) -> (text: String)
    requires
        at@.is_valid(),
        pattern@ == MINUTE_PATTERN@,
    ensures
        text@ == at@.minute_text(),
{
    let date = chrono::NaiveDate::from_ymd_opt(at.year, at.month, at.day).unwrap();
    let moment = date.and_hms_nano_opt(at.hour, at.minute, at.second, at.nano).unwrap();
    moment.format(pattern).to_string()
}

/// No timestamp is earlier than itself.
pub proof fn lemma_precedes_irreflexive(a: Civil)
    ensures
        !a.precedes(a),
{
}

/// Of two timestamps at most one is earlier than the other.
pub proof fn lemma_precedes_asymmetric(a: Civil, b: Civil)
    requires
        a.precedes(b),
    ensures
        !b.precedes(a),
{
}

/// What is earlier than something earlier than `c` is earlier than `c`.
pub proof fn lemma_precedes_transitive(a: Civil, b: Civil, c: Civil)
    requires
        a.precedes(b),
        b.precedes(c),
    ensures
        a.precedes(c),
{
}

/// Two timestamps are equal, or one of them is earlier than the other.
pub proof fn lemma_precedes_total(a: Civil, b: Civil)
    ensures
        a == b || a.precedes(b) || b.precedes(a),
{
}

} // verus!
