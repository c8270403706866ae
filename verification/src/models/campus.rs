//! Campuses of a college.

use vstd::prelude::*;

use crate::models::group::Group;

verus! {

/// A physical site under a college, owning student groups.
#[derive(Debug, Clone)]
pub struct Campus {
    /// Unique identifier for the campus.
    pub id: u32,
    /// Name of the campus.
    pub name: String,
    /// Identifier of the parent college.
    pub college_id: u32,
    /// Student groups at this campus (may be empty when omitted on the wire).
    pub groups: Vec<Group>,
}

} // verus!
