//! Schedules: the lessons of one group on one date.

use vstd::prelude::*;

use crate::models::date::Date;
use crate::models::lesson::Lesson;

verus! {

/// The ordered lessons of one group on one calendar date.
#[derive(Debug, Clone)]
pub struct Schedule {
    /// Identifier of the owning group.
    pub group_id: u32,
    /// The calendar date the lessons belong to.
    pub date: Date,
    /// The lessons of that date, in order.
    pub lessons: Vec<Lesson>,
}

impl Schedule {
    /// Well-formed schedules carry a real calendar date and well-formed lessons.
    pub open spec fn wf(self) -> bool {
        self.date.wf() && forall|i: int| 0 <= i < self.lessons.len() ==> self.lessons[i].wf()
    }
}

} // verus!
