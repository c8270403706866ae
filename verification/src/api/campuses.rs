//! Builders for the campus collection of a college and for one campus.

use vstd::prelude::*;

use crate::api::groups::{GroupQuery, GroupsQuery};
use crate::client::Client;
use crate::http::{collection_path, name_query_seq, Method, PreparedRequest};
use crate::utils::strings::{dec_str, u32_to_string};
use vstd::string::StringExecFns;

verus! {

/// A chainable query over the campuses of one college.
pub struct CampusesQuery<'a> {
    pub client: &'a Client,
    pub college_id: u32,
    pub name: Option<String>,
}

impl<'a> CampusesQuery<'a> {
    pub fn new(client: &'a Client, college_id: u32) -> (r: Self)
        ensures
            r.client == client,
            r.college_id == college_id,
            r.name is None,
    {
        CampusesQuery { client, college_id, name: None }
    }

    /// Filters the collection by name (last write wins).
    pub fn name(self, name: &str) -> (r: Self)
        ensures
            r.client == self.client,
            r.college_id == self.college_id,
            r.name matches Some(n) && n@ == name@,
    {
        CampusesQuery { client: self.client, college_id: self.college_id, name: Some(
            name.to_owned(),
        ) }
    }

    /// The path this query sends: `/colleges/{id}/campuses`, with the name
    /// filter when set.
    pub open spec fn path_seq(self) -> Seq<char> {
        "/colleges/"@ + dec_str(self.college_id as nat) + "/campuses"@ + name_query_seq(
            self.name.deep_view(),
        )
    }

    /// Describes the request this query issues: one GET of [`Self::path_seq`].
    pub fn request(self) -> (r: PreparedRequest)
        ensures
            r.method == Method::Get,
            r.path@ == self.path_seq(),
            r.bearer_token is None,
            r.body is None,
    {
        let mut prefix = String::from_str("/colleges/");
        prefix.append(u32_to_string(self.college_id).as_str());
        prefix.append("/campuses");
        let path = collection_path(prefix.as_str(), &self.name);
        proof {
            assert(path@ =~= self.path_seq());
        }
        PreparedRequest { method: Method::Get, path, bearer_token: None, body: None }
    }

    /// Narrows to one campus; filters of this level do not apply there.
    pub fn campus(self, campus_id: u32) -> (r: CampusQuery<'a>)
        ensures
            r.client == self.client,
            r.campus_id == campus_id,
    {
        CampusQuery::new(self.client, campus_id)
    }
}

/// A query for one campus by id.
pub struct CampusQuery<'a> {
    pub client: &'a Client,
    pub campus_id: u32,
}

impl<'a> CampusQuery<'a> {
    pub fn new(client: &'a Client, campus_id: u32) -> (r: Self)
        ensures
            r.client == client,
            r.campus_id == campus_id,
    {
        CampusQuery { client, campus_id }
    }

    /// The path this query sends: `/campuses/{id}`.
    pub open spec fn path_seq(self) -> Seq<char> {
        "/campuses/"@ + dec_str(self.campus_id as nat)
    }

    /// Describes the request this query issues: one GET of [`Self::path_seq`].
    pub fn request(self) -> (r: PreparedRequest)
        ensures
            r.method == Method::Get,
            r.path@ == self.path_seq(),
            r.bearer_token is None,
            r.body is None,
    {
        let mut path = String::from_str("/campuses/");
        path.append(u32_to_string(self.campus_id).as_str());
        PreparedRequest { method: Method::Get, path, bearer_token: None, body: None }
    }

    /// The group collection of this campus.
    pub fn groups(self) -> (r: GroupsQuery<'a>)
        ensures
            r.client == self.client,
            r.campus_id == self.campus_id,
            r.name is None,
    {
        GroupsQuery::new(self.client, self.campus_id)
    }

    /// Narrows to one group of this campus.
    pub fn group(self, group_id: u32) -> (r: GroupQuery<'a>)
        ensures
            r.client == self.client,
            r.group_id == group_id,
    {
        GroupQuery::new(self.client, group_id)
    }
}

} // verus!
