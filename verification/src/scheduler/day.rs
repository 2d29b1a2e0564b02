//! The day component of a partial date: a named weekday or an ordinal
//! day-of-month, together with its stable catalog encoding.

use vstd::prelude::*;

verus! {

/// Offset that separates ordinal days from weekday codes in the catalog
/// encoding: weekdays take 1 to 7, ordinal day n takes 7 + n.
pub const DB_DAY_ORDINAL_OFFSET: u32 = 7;

/// The day pattern of a partial date: a named weekday, or an ordinal
/// day-of-month in 1 to 31.
#[derive(Clone, Copy, Debug, PartialEq, Eq, Structural)]
pub enum Day {
    Monday,
    Tuesday,
    Wednesday,
    Thursday,
    Friday,
    Saturday,
    Sunday,
    Ordinal(u32),
}

/// The Monday-based index of a named weekday (Monday is 0, Sunday is 6);
/// meaningless for ordinals.
pub open spec fn weekday_index_of(d: Day) -> int {
    match d {
        Day::Monday => 0,
        Day::Tuesday => 1,
        Day::Wednesday => 2,
        Day::Thursday => 3,
        Day::Friday => 4,
        Day::Saturday => 5,
        Day::Sunday => 6,
        Day::Ordinal(_) => 7,
    }
}

impl Day {
    /// A well-formed day: an ordinal stays inside 1 to 31.
    pub open spec fn wf(self) -> bool {
        match self {
            Day::Ordinal(x) => 1 <= x <= 31,
            _ => true,
        }
    }

    /// Whether this day names a weekday rather than an ordinal.
    pub open spec fn is_weekday(self) -> bool {
        !(self is Ordinal)
    }

    /// The Monday-based index of a named weekday.
    pub fn weekday_index(self) -> (r: u32)
        requires
            self.is_weekday(),
        ensures
            r as int == weekday_index_of(self),
            r < 7,
    {
        match self {
            Day::Monday => 0,
            Day::Tuesday => 1,
            Day::Wednesday => 2,
            Day::Thursday => 3,
            Day::Friday => 4,
            Day::Saturday => 5,
            Day::Sunday => 6,
            Day::Ordinal(_) => 7,
        }
    }
}

/// The catalog code of a day.
pub open spec fn day_db_value(day: Day) -> int {
    match day {
        Day::Ordinal(x) => DB_DAY_ORDINAL_OFFSET + x,
        _ => weekday_index_of(day) + 1,
    }
}

/// Encode a day as its stable catalog code: 1 to 7 for weekdays, 7 + n for
/// ordinal day n.
pub fn as_db_value(day: Day) -> (r: u32)
    requires
        day.wf(),
    ensures
        r as int == day_db_value(day),
        1 <= r <= 38,
{
    match day {
        Day::Monday => 1,
        Day::Tuesday => 2,
        Day::Wednesday => 3,
        Day::Thursday => 4,
        Day::Friday => 5,
        Day::Saturday => 6,
        Day::Sunday => 7,
        Day::Ordinal(x) => DB_DAY_ORDINAL_OFFSET + x,
    }
}

/// Decode a catalog code back into a day; inverse of `as_db_value`.
pub fn from_db_value(value: u32) -> (r: Day)
    requires
        1 <= value <= 38,
    ensures
        r.wf(),
        day_db_value(r) == value,
{
    match value {
        1 => Day::Monday,
        2 => Day::Tuesday,
        3 => Day::Wednesday,
        4 => Day::Thursday,
        5 => Day::Friday,
        6 => Day::Saturday,
        7 => Day::Sunday,
        x => Day::Ordinal(x - DB_DAY_ORDINAL_OFFSET),
    }
}

} // verus!
