//! The parser sub-API: bulk maintenance of groups, calls and lessons.
//!
//! All three operations are POSTs that require the bearer credential of
//! the [`AuthenticatedClient`] they were reached through.  The client
//! offers no deduplication and no retry.

use vstd::prelude::*;
use vstd::string::StringExecFns;

use crate::auth::AuthenticatedClient;
use crate::http::{Method, PreparedRequest, RequestBody};
use crate::models::requests::{UpdateCallsRequest, UpdateGroupsRequest, UpdateLessonsRequest};

verus! {

/// The parser operations of one authenticated client.
pub struct ParserApi {
    pub client: AuthenticatedClient,
}

impl ParserApi {
    pub fn new(client: AuthenticatedClient) -> (r: Self)
        ensures
            r.client == client,
    {
        ParserApi { client }
    }

    /// Describes the POST that replaces the groups of one campus.
    pub fn update_groups_request(&self, request: UpdateGroupsRequest) -> (r: PreparedRequest)
        ensures
            r.method == Method::Post,
            r.path@ == "/parser/groups"@,
            r.bearer_token == self.client.auth.token,
            r.body == Some(RequestBody::UpdateGroups(request)),
    {
        PreparedRequest {
            method: Method::Post,
            path: String::from_str("/parser/groups"),
            bearer_token: self.client.auth.cloned_token(),
            body: Some(RequestBody::UpdateGroups(request)),
        }
    }

    /// Describes the POST that replaces the bell schedule.
    pub fn update_calls_request(&self, request: UpdateCallsRequest) -> (r: PreparedRequest)
        ensures
            r.method == Method::Post,
            r.path@ == "/parser/calls"@,
            r.bearer_token == self.client.auth.token,
            r.body == Some(RequestBody::UpdateCalls(request)),
    {
        PreparedRequest {
            method: Method::Post,
            path: String::from_str("/parser/calls"),
            bearer_token: self.client.auth.cloned_token(),
            body: Some(RequestBody::UpdateCalls(request)),
        }
    }

    /// Describes the POST that adds lessons.
    pub fn add_lessons_request(&self, request: UpdateLessonsRequest) -> (r: PreparedRequest)
        ensures
            r.method == Method::Post,
            r.path@ == "/parser/lessons"@,
            r.bearer_token == self.client.auth.token,
            r.body == Some(RequestBody::UpdateLessons(request)),
    {
        PreparedRequest {
            method: Method::Post,
            path: String::from_str("/parser/lessons"),
            bearer_token: self.client.auth.cloned_token(),
            body: Some(RequestBody::UpdateLessons(request)),
        }
    }
}

} // verus!
