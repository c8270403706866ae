//! Bell-schedule periods.

use vstd::prelude::*;

use crate::models::time::Time;

verus! {

/// One recurring bell-schedule period of a college, independent of date.
#[derive(Debug, Clone)]
pub struct Call {
    /// Unique identifier for the call.
    pub call_id: u32,
    /// Day of the week (1 to 7, where 1 is Monday).
    pub weekday: u8,
    /// Time when the lesson period begins.
    pub begins: Time,
    /// Time when the lesson period ends.
    pub ends: Time,
    /// Order of the call in the daily schedule.
    pub order: u32,
}

impl Call {
    /// Well-formed calls name a weekday and carry wall-clock times.
    pub open spec fn wf(self) -> bool {
        1 <= self.weekday <= 7 && self.begins.wf() && self.ends.wf()
    }
}

} // verus!
