//! Student groups.

use vstd::prelude::*;

verus! {

/// A cohort of students sharing a schedule, located at one campus.
#[derive(Debug, Clone)]
pub struct Group {
    /// Unique identifier for the group.
    pub id: u32,
    /// Name of the group.
    pub name: String,
    /// Identifier of the campus where this group is located.
    pub campus_id: u32,
}

} // verus!
