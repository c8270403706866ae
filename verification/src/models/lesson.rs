//! Lessons within a schedule.

use vstd::prelude::*;

use crate::models::time::Time;

verus! {

/// One scheduled class occurrence.  A lesson has no identity of its own;
/// it exists only within a [`crate::models::schedule::Schedule`].
#[derive(Debug, Clone)]
pub struct Lesson {
    /// Title or name of the lesson.
    pub title: String,
    /// Classroom or cabinet where the lesson takes place.
    pub cabinet: String,
    /// Name of the teacher.
    pub teacher: String,
    /// Order number of the lesson in the daily schedule.
    pub order: u32,
    /// Start time of the lesson.
    pub start_time: Time,
    /// End time of the lesson.
    pub end_time: Time,
}

impl Lesson {
    /// Well-formed lessons carry wall-clock times.
    pub open spec fn wf(self) -> bool {
        self.start_time.wf() && self.end_time.wf()
    }
}

} // verus!
