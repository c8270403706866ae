//! Builders for the college collection and for one college.

use vstd::prelude::*;

use crate::api::campuses::{CampusQuery, CampusesQuery};
use crate::client::Client;
use crate::http::{collection_path, name_query_seq, Method, PreparedRequest};
use crate::utils::strings::{dec_str, u32_to_string};
use vstd::string::StringExecFns;

verus! {

/// A chainable query over the college collection.
pub struct CollegesQuery<'a> {
    pub client: &'a Client,
    pub name: Option<String>,
}

impl<'a> CollegesQuery<'a> {
    pub fn new(client: &'a Client) -> (r: Self)
        ensures
            r.client == client,
            r.name is None,
    {
        CollegesQuery { client, name: None }
    }

    /// Filters the collection by name (last write wins).
    pub fn name(self, name: &str) -> (r: Self)
        ensures
            r.client == self.client,
            r.name matches Some(n) && n@ == name@,
    {
        CollegesQuery { client: self.client, name: Some(name.to_owned()) }
    }

    /// The path this query sends: `/colleges`, with the name filter when set.
    pub open spec fn path_seq(self) -> Seq<char> {
        "/colleges"@ + name_query_seq(self.name.deep_view())
    }

    /// Describes the request this query issues: one GET of [`Self::path_seq`].
    pub fn request(self) -> (r: PreparedRequest)
        ensures
            r.method == Method::Get,
            r.path@ == self.path_seq(),
            r.bearer_token is None,
            r.body is None,
    {
        PreparedRequest {
            method: Method::Get,
            path: collection_path("/colleges", &self.name),
            bearer_token: None,
            body: None,
        }
    }

    /// Narrows to one college; filters of this level do not apply there.
    pub fn college(self, college_id: u32) -> (r: CollegeQuery<'a>)
        ensures
            r.client == self.client,
            r.college_id == college_id,
    {
        CollegeQuery::new(self.client, college_id)
    }
}

/// A query for one college by id.
pub struct CollegeQuery<'a> {
    pub client: &'a Client,
    pub college_id: u32,
}

impl<'a> CollegeQuery<'a> {
    pub fn new(client: &'a Client, college_id: u32) -> (r: Self)
        ensures
            r.client == client,
            r.college_id == college_id,
    {
        CollegeQuery { client, college_id }
    }

    /// The path this query sends: `/colleges/{id}`.
    pub open spec fn path_seq(self) -> Seq<char> {
        "/colleges/"@ + dec_str(self.college_id as nat)
    }

    /// Describes the request this query issues: one GET of [`Self::path_seq`].
    pub fn request(self) -> (r: PreparedRequest)
        ensures
            r.method == Method::Get,
            r.path@ == self.path_seq(),
            r.bearer_token is None,
            r.body is None,
    {
        let mut path = String::from_str("/colleges/");
        path.append(u32_to_string(self.college_id).as_str());
        PreparedRequest { method: Method::Get, path, bearer_token: None, body: None }
    }

    /// The campus collection of this college.
    pub fn campuses(self) -> (r: CampusesQuery<'a>)
        ensures
            r.client == self.client,
            r.college_id == self.college_id,
            r.name is None,
    {
        CampusesQuery::new(self.client, self.college_id)
    }

    /// Narrows to one campus of this college.
    pub fn campus(self, campus_id: u32) -> (r: CampusQuery<'a>)
        ensures
            r.client == self.client,
            r.campus_id == campus_id,
    {
        CampusQuery::new(self.client, campus_id)
    }
}

} // verus!
