//! Bodies of the admin and parser mutation requests.

use vstd::prelude::*;

verus! {

/// Body of the request that replaces the groups of one campus.
#[derive(Debug, Clone)]
pub struct UpdateGroupsRequest {
    pub campus_id: u32,
    pub student_group_names: Vec<String>,
}

/// Body of the request that registers a new parser.
#[derive(Debug, Clone)]
pub struct CreateParserRequest {
    pub college_name: String,
    pub campus_names: Vec<String>,
}

/// Body of the request that replaces the bell schedule.
#[derive(Debug, Clone)]
pub struct UpdateCallsRequest {
    pub calls: Vec<CallRequest>,
}

/// One bell-schedule period inside an [`UpdateCallsRequest`].
#[derive(Debug, Clone)]
pub struct CallRequest {
    pub weekday: u8,
    pub begins: String,
    pub ends: String,
    pub order: u32,
}

/// Body of the request that adds lessons.
#[derive(Debug, Clone)]
pub struct UpdateLessonsRequest {
    pub lessons: Vec<LessonRequest>,
}

/// One lesson inside an [`UpdateLessonsRequest`].
#[derive(Debug, Clone)]
pub struct LessonRequest {
    pub group_id: u32,
    pub order: u32,
    pub title: String,
    pub teacher: String,
    pub cabinet: String,
    pub date: String,
}

/// Body of the answer to a parser registration: the parser's credential.
#[derive(Debug, Clone)]
pub struct CreateParserResponse {
    pub token: String,
}

} // verus!
