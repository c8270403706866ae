//! Builders for the group collection of a campus and for one group.

use vstd::prelude::*;

use crate::api::schedules::ScheduleQuery;
use crate::client::Client;
use crate::http::{collection_path, name_query_seq, Method, PreparedRequest};
use crate::models::Week;
use crate::utils::strings::{dec_str, u32_to_string};
use vstd::string::StringExecFns;

verus! {

/// A chainable query over the groups of one campus.
pub struct GroupsQuery<'a> {
    pub client: &'a Client,
    pub campus_id: u32,
    pub name: Option<String>,
}

impl<'a> GroupsQuery<'a> {
    pub fn new(client: &'a Client, campus_id: u32) -> (r: Self)
        ensures
            r.client == client,
            r.campus_id == campus_id,
            r.name is None,
    {
        GroupsQuery { client, campus_id, name: None }
    }

    /// Filters the collection by name (last write wins).
    pub fn name(self, name: &str) -> (r: Self)
        ensures
            r.client == self.client,
            r.campus_id == self.campus_id,
            r.name matches Some(n) && n@ == name@,
    {
        GroupsQuery { client: self.client, campus_id: self.campus_id, name: Some(
            name.to_owned(),
        ) }
    }

    /// The path this query sends: `/campuses/{id}/groups`, with the name
    /// filter when set.
    pub open spec fn path_seq(self) -> Seq<char> {
        "/campuses/"@ + dec_str(self.campus_id as nat) + "/groups"@ + name_query_seq(
            self.name.deep_view(),
        )
    }

    /// Describes the request this query issues: one GET of [`Self::path_seq`].
    pub fn request(self) -> (r: PreparedRequest)
        ensures
            r.method == Method::Get,
            r.path@ == self.path_seq(),
            r.bearer_token is None,
            r.body is None,
    {
        let mut prefix = String::from_str("/campuses/");
        prefix.append(u32_to_string(self.campus_id).as_str());
        prefix.append("/groups");
        let path = collection_path(prefix.as_str(), &self.name);
        proof {
            assert(path@ =~= self.path_seq());
        }
        PreparedRequest { method: Method::Get, path, bearer_token: None, body: None }
    }

    /// Narrows to one group; filters of this level do not apply there.
    pub fn group(self, group_id: u32) -> (r: GroupQuery<'a>)
        ensures
            r.client == self.client,
            r.group_id == group_id,
    {
        GroupQuery::new(self.client, group_id)
    }
}

/// A query for one group by id, and the way into its schedules.
pub struct GroupQuery<'a> {
    pub client: &'a Client,
    pub group_id: u32,
}

impl<'a> GroupQuery<'a> {
    pub fn new(client: &'a Client, group_id: u32) -> (r: Self)
        ensures
            r.client == client,
            r.group_id == group_id,
    {
        GroupQuery { client, group_id }
    }

    /// The path this query sends: `/groups/{id}`.
    pub open spec fn path_seq(self) -> Seq<char> {
        "/groups/"@ + dec_str(self.group_id as nat)
    }

    /// Describes the request this query issues: one GET of [`Self::path_seq`].
    pub fn request(self) -> (r: PreparedRequest)
        ensures
            r.method == Method::Get,
            r.path@ == self.path_seq(),
            r.bearer_token is None,
            r.body is None,
    {
        let mut path = String::from_str("/groups/");
        path.append(u32_to_string(self.group_id).as_str());
        PreparedRequest { method: Method::Get, path, bearer_token: None, body: None }
    }

    /// The schedules of this group, with no filter set yet.
    pub fn schedules(self) -> (r: ScheduleQuery<'a>)
        ensures
            r.client == self.client,
            r.group_id == self.group_id,
            r.date is None && r.week is None && r.weekday is None && r.day is None,
    {
        ScheduleQuery::new(self.client, self.group_id)
    }

    /// Shortcut: the schedules of today.
    pub fn today(self) -> (r: ScheduleQuery<'a>)
        ensures
            r.client == self.client,
            r.group_id == self.group_id,
            r.date is None && r.week is None && r.weekday is None,
            r.day matches Some(d) && d is Today,
    {
        self.schedules().today()
    }

    /// Shortcut: the schedules of tomorrow.
    pub fn tomorrow(self) -> (r: ScheduleQuery<'a>)
        ensures
            r.client == self.client,
            r.group_id == self.group_id,
            r.date is None && r.week is None && r.weekday is None,
            r.day matches Some(d) && d is Tomorrow,
    {
        self.schedules().tomorrow()
    }

    /// Shortcut: the schedules of one date.
    pub fn date(self, date: &str) -> (r: ScheduleQuery<'a>)
        ensures
            r.client == self.client,
            r.group_id == self.group_id,
            r.date matches Some(d) && d@ == date@,
            r.week is None && r.weekday is None && r.day is None,
    {
        self.schedules().date(date)
    }

    /// Shortcut: the schedules of one week.
    pub fn week(self, week: Week) -> (r: ScheduleQuery<'a>)
        ensures
            r.client == self.client,
            r.group_id == self.group_id,
            r.date is None && r.weekday is None && r.day is None,
            r.week == Some(week),
    {
        self.schedules().week(week)
    }
}

} // verus!
