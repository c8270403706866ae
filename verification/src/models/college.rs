//! Colleges.

use vstd::prelude::*;

use crate::models::call::Call;
use crate::models::campus::Campus;

verus! {

/// An educational institution owning campuses and a bell schedule.
#[derive(Debug, Clone)]
pub struct College {
    /// Unique identifier for the college.
    pub college_id: u32,
    /// Name of the college.
    pub name: String,
    /// Schedule of calls (lesson periods) for the college.
    pub calls: Vec<Call>,
    /// Campuses belonging to this college.
    pub campuses: Vec<Campus>,
}

} // verus!
