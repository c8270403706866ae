//! The schedule query builder: filters, their mutual-exclusion rules, and
//! the exact query string they produce.
//!
//! A schedule query accumulates up to four optional filters.  `date`
//! excludes every other filter; `day` excludes `week` and `weekday`;
//! `week` and `weekday` may stand together.  The rules are checked before
//! a request is described, so an invalid combination never reaches the
//! network.

use vstd::prelude::*;
use vstd::string::StringExecFns;

use crate::client::Client;
use crate::error::Error;
use crate::http::{Method, PreparedRequest};
use crate::models::{Day, Week, Weekday};
use crate::utils::strings::{dec_str, u32_to_string};

verus! {

/// A chainable query over the schedules of one group.
pub struct ScheduleQuery<'a> {
    pub client: &'a Client,
    pub group_id: u32,
    pub date: Option<String>,
    pub week: Option<Week>,
    pub weekday: Option<Weekday>,
    pub day: Option<Day>,
}

/// `&` when an earlier query parameter precedes, nothing otherwise.
pub open spec fn sep(preceded: bool) -> Seq<char> {
    if preceded {
        "&"@
    } else {
        Seq::<char>::empty()
    }
}

/// Appends one `name=value` query parameter, separated from a preceding
/// parameter by `&`.
fn append_param(q: &mut String, preceded: bool, prefix: &str, value: &str)
    ensures
        final (q)@ == old(q)@ + sep(preceded) + prefix@ + value@,
{
    if preceded {
        q.append("&");
    }
    q.append(prefix);
    q.append(value);
    proof {
        assert(q@ =~= old(q)@ + sep(preceded) + prefix@ + value@);
    }
}

impl<'a> ScheduleQuery<'a> {
    pub fn new(client: &'a Client, group_id: u32) -> (r: Self)
        ensures
            r.client == client,
            r.group_id == group_id,
            r.date is None && r.week is None && r.weekday is None && r.day is None,
    {
        ScheduleQuery { client, group_id, date: None, week: None, weekday: None, day: None }
    }

    /// Selects one date (last write wins).
    pub fn date(self, date: &str) -> (r: Self)
        ensures
            r.client == self.client,
            r.group_id == self.group_id,
            r.date matches Some(d) && d@ == date@,
            r.week == self.week && r.weekday == self.weekday && r.day == self.day,
    {
        ScheduleQuery { date: Some(date.to_owned()), ..self }
    }

    /// Selects one week (last write wins).
    pub fn week(self, week: Week) -> (r: Self)
        ensures
            r.client == self.client,
            r.group_id == self.group_id,
            r.week == Some(week),
            r.date == self.date && r.weekday == self.weekday && r.day == self.day,
    {
        ScheduleQuery { week: Some(week), ..self }
    }

    /// Selects one weekday (last write wins).
    pub fn weekday(self, weekday: Weekday) -> (r: Self)
        ensures
            r.client == self.client,
            r.group_id == self.group_id,
            r.weekday == Some(weekday),
            r.date == self.date && r.week == self.week && r.day == self.day,
    {
        ScheduleQuery { weekday: Some(weekday), ..self }
    }

    /// Selects today (last write to the day filter wins).
    pub fn today(self) -> (r: Self)
        ensures
            r.client == self.client,
            r.group_id == self.group_id,
            r.day matches Some(d) && d is Today,
            r.date == self.date && r.week == self.week && r.weekday == self.weekday,
    {
        ScheduleQuery { day: Some(Day::Today), ..self }
    }

    /// Selects tomorrow (last write to the day filter wins).
    pub fn tomorrow(self) -> (r: Self)
        ensures
            r.client == self.client,
            r.group_id == self.group_id,
            r.day matches Some(d) && d is Tomorrow,
            r.date == self.date && r.week == self.week && r.weekday == self.weekday,
    {
        ScheduleQuery { day: Some(Day::Tomorrow), ..self }
    }

    /// The `date` filter cannot be combined with any other filter.
    pub open spec fn date_conflict(self) -> bool {
        self.date is Some && (self.week is Some || self.weekday is Some || self.day is Some)
    }

    /// The `day` filter cannot be combined with `week` or `weekday`.
    pub open spec fn day_conflict(self) -> bool {
        self.day is Some && (self.week is Some || self.weekday is Some)
    }

    /// True when the accumulated filters may be sent.
    pub open spec fn valid_filters(self) -> bool {
        !self.date_conflict() && !self.day_conflict()
    }

    /// Checks the mutual-exclusion rules, before any request is described:
    /// `Ok` exactly when no filter conflicts with another.
    pub fn validate(&self) -> (r: Result<(), Error>)
        ensures
            r is Ok <==> self.valid_filters(),
            self.date_conflict() ==> (r matches Err(e) && e matches Error::Validation(m) && m@
                == "parameter 'date' cannot be combined with 'week', 'weekday' or 'day'"@),
            !self.date_conflict() && self.day_conflict() ==> (r matches Err(e)
                && e matches Error::Validation(m) && m@
                == "parameter 'day' cannot be combined with 'week' or 'weekday'"@),
    {
        if self.date.is_some() && (self.week.is_some() || self.weekday.is_some()
            || self.day.is_some()) {
            return Err(
                Error::Validation(
                    String::from_str(
                        "parameter 'date' cannot be combined with 'week', 'weekday' or 'day'",
                    ),
                ),
            );
        }
        if self.day.is_some() && (self.week.is_some() || self.weekday.is_some()) {
            return Err(
                Error::Validation(
                    String::from_str("parameter 'day' cannot be combined with 'week' or 'weekday'"),
                ),
            );
        }
        Ok(())
    }

    /// What the `date` filter contributes to the query string.
    pub open spec fn date_part(self) -> Seq<char> {
        match self.date {
            Some(d) => "date="@ + d@,
            None => Seq::<char>::empty(),
        }
    }

    /// What the `day` filter contributes to the query string.
    pub open spec fn day_part(self) -> Seq<char> {
        match self.day {
            Some(d) => sep(self.date is Some) + "day="@ + d.canon(),
            None => Seq::<char>::empty(),
        }
    }

    /// What the `week` filter contributes to the query string.
    pub open spec fn week_part(self) -> Seq<char> {
        match self.week {
            Some(w) => sep(self.date is Some || self.day is Some) + "week="@ + w.canon(),
            None => Seq::<char>::empty(),
        }
    }

    /// What the `weekday` filter contributes to the query string.
    pub open spec fn weekday_part(self) -> Seq<char> {
        match self.weekday {
            Some(w) => sep(self.date is Some || self.day is Some || self.week is Some)
                + "weekday="@ + w.canon(),
            None => Seq::<char>::empty(),
        }
    }

    /// The query string this query sends: nothing when no filter is set,
    /// otherwise `?` and the set filters in the order date, day, week,
    /// weekday, each rendered in its canonical form and separated by `&`.
    pub open spec fn query_seq(self) -> Seq<char> {
        if self.date is None && self.day is None && self.week is None && self.weekday is None {
            Seq::<char>::empty()
        } else {
            "?"@ + self.date_part() + self.day_part() + self.week_part() + self.weekday_part()
        }
    }

    /// The path this query sends: `/groups/{id}/schedules` with
    /// [`Self::query_seq`] appended.
    pub open spec fn path_seq(self) -> Seq<char> {
        "/groups/"@ + dec_str(self.group_id as nat) + "/schedules"@ + self.query_seq()
    }

    /// Builds the concatenation of the four filter contributions.
    fn build_params(&self) -> (r: String)
        ensures
            r@ == self.date_part() + self.day_part() + self.week_part() + self.weekday_part(),
    {
        let mut q = String::new();
        let mut any = false;
        match &self.date {
            Some(d) => {
                append_param(&mut q, false, "date=", d.as_str());
                any = true;
            },
            None => {},
        }
        proof {
            assert(q@ =~= self.date_part());
        }
        match self.day {
            Some(d) => {
                append_param(&mut q, any, "day=", d.as_str());
                any = true;
            },
            None => {},
        }
        proof {
            assert(q@ =~= self.date_part() + self.day_part());
        }
        match self.week {
            Some(w) => {
                append_param(&mut q, any, "week=", w.as_str());
                any = true;
            },
            None => {},
        }
        proof {
            assert(q@ =~= self.date_part() + self.day_part() + self.week_part());
        }
        match self.weekday {
            Some(w) => {
                append_param(&mut q, any, "weekday=", w.as_str());
            },
            None => {},
        }
        proof {
            assert(q@ =~= self.date_part() + self.day_part() + self.week_part()
                + self.weekday_part());
        }
        q
    }

    /// Builds the query string of [`Self::query_seq`].
    fn build_query(&self) -> (r: String)
        ensures
            r@ == self.query_seq(),
    {
        let params = self.build_params();
        if self.date.is_some() || self.day.is_some() || self.week.is_some()
            || self.weekday.is_some() {
            let r = String::from_str("?").concat(params.as_str());
            proof {
                assert(r@ =~= self.query_seq());
            }
            r
        } else {
            proof {
                assert(params@ =~= self.query_seq());
            }
            params
        }
    }

    /// Describes the request this query issues, after checking the
    /// mutual-exclusion rules: one GET of [`Self::path_seq`] when the
    /// filters are valid, and the validation error of [`Self::validate`]
    /// (before any network access) otherwise.
    pub fn request(self) -> (r: Result<PreparedRequest, Error>)
        ensures
            r is Ok <==> self.valid_filters(),
            r matches Ok(p) ==> p.method == Method::Get && p.path@ == self.path_seq()
                && p.bearer_token is None && p.body is None,
            self.date_conflict() ==> (r matches Err(e) && e matches Error::Validation(m) && m@
                == "parameter 'date' cannot be combined with 'week', 'weekday' or 'day'"@),
            !self.date_conflict() && self.day_conflict() ==> (r matches Err(e)
                && e matches Error::Validation(m) && m@
                == "parameter 'day' cannot be combined with 'week' or 'weekday'"@),
    {
        match self.validate() {
            Ok(()) => {},
            Err(e) => {
                return Err(e);
            },
        }
        let query = self.build_query();
        let mut path = String::from_str("/groups/");
        path.append(u32_to_string(self.group_id).as_str());
        path.append("/schedules");
        path.append(query.as_str());
        proof {
            assert(path@ =~= self.path_seq());
        }
        Ok(PreparedRequest { method: Method::Get, path, bearer_token: None, body: None })
    }
}

/// `week` and `weekday` are not mutually exclusive: with both set and no
/// other filter, the query is valid and both are forwarded as query
/// parameters, in their canonical forms.
pub proof fn lemma_week_weekday_forwarded<'a>(q: ScheduleQuery<'a>, w: Week, wd: Weekday)
    requires
        q.date is None,
        q.day is None,
        q.week == Some(w),
        q.weekday == Some(wd),
    ensures
        q.valid_filters(),
        q.query_seq() == "?week="@ + w.canon() + "&weekday="@ + wd.canon(),
{
    reveal_strlit("?");
    reveal_strlit("week=");
    reveal_strlit("&");
    reveal_strlit("weekday=");
    reveal_strlit("?week=");
    reveal_strlit("&weekday=");
    assert(q.query_seq() =~= "?week="@ + w.canon() + "&weekday="@ + wd.canon());
}

} // verus!
