//! Resource records and the closed filter enumerations.

pub mod call;
pub mod campus;
pub mod college;
pub mod date;
pub mod group;
pub mod lesson;
pub mod requests;
pub mod schedule;
pub mod time;

use vstd::prelude::*;

verus! {

/// Week selector for a schedule query, relative to the current week.
#[derive(Debug, Clone, Copy)]
pub enum Week {
    Previous,
    Current,
    Next,
}

/// Day of the week, Monday first.
#[derive(Debug, Clone, Copy)]
pub enum Weekday {
    Monday,
    Tuesday,
    Wednesday,
    Thursday,
    Friday,
    Saturday,
    Sunday,
}

/// Day selector for a schedule query, relative to the current date.
#[derive(Debug, Clone, Copy)]
pub enum Day {
    Today,
    Tomorrow,
}

impl Week {
    /// The canonical lowercase form, used for display and as a query value.
    pub open spec fn canon(self) -> Seq<char> {
        match self {
            Week::Previous => "previous"@,
            Week::Current => "current"@,
            Week::Next => "next"@,
        }
    }

    pub fn as_str(self) -> (r: &'static str)
        ensures
            r@ == self.canon(),
    {
        match self {
            Week::Previous => "previous",
            Week::Current => "current",
            Week::Next => "next",
        }
    }
}

impl Weekday {
    /// The canonical lowercase form, used for display and as a query value.
    pub open spec fn canon(self) -> Seq<char> {
        match self {
            Weekday::Monday => "monday"@,
            Weekday::Tuesday => "tuesday"@,
            Weekday::Wednesday => "wednesday"@,
            Weekday::Thursday => "thursday"@,
            Weekday::Friday => "friday"@,
            Weekday::Saturday => "saturday"@,
            Weekday::Sunday => "sunday"@,
        }
    }

    pub fn as_str(self) -> (r: &'static str)
        ensures
            r@ == self.canon(),
    {
        match self {
            Weekday::Monday => "monday",
            Weekday::Tuesday => "tuesday",
            Weekday::Wednesday => "wednesday",
            Weekday::Thursday => "thursday",
            Weekday::Friday => "friday",
            Weekday::Saturday => "saturday",
            Weekday::Sunday => "sunday",
        }
    }
}

impl Day {
    /// The canonical lowercase form, used for display and as a query value.
    pub open spec fn canon(self) -> Seq<char> {
        match self {
            Day::Today => "today"@,
            Day::Tomorrow => "tomorrow"@,
        }
    }

    pub fn as_str(self) -> (r: &'static str)
        ensures
            r@ == self.canon(),
    {
        match self {
            Day::Today => "today",
            Day::Tomorrow => "tomorrow",
        }
    }
}

} // verus!
