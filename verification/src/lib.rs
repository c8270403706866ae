//! Typed client library for a college-schedule REST API.
//!
//! The crate models the request-building layer of the API: resource records,
//! query builders with their validation rules, canonical text forms for
//! times, dates and filter values, and normalization of server failures
//! into a closed set of error kinds.  Transport itself (issuing the HTTP
//! call) is left to the embedding application; every request a builder
//! produces is described by a plain value that the application can send.

pub mod api;
pub mod auth;
pub mod client;
pub mod error;
pub mod http;
pub mod models;
pub mod utils;

pub use api::admin::AdminApi;
pub use api::campuses::{CampusQuery, CampusesQuery};
pub use api::colleges::{CollegeQuery, CollegesQuery};
pub use api::groups::{GroupQuery, GroupsQuery};
pub use api::parser::ParserApi;
pub use api::schedules::ScheduleQuery;
pub use auth::{Auth, AuthenticatedClient};
pub use client::Client;
pub use error::Error;
pub use http::{Method, PreparedRequest, RequestBody};
pub use models::call::Call;
pub use models::campus::Campus;
pub use models::college::College;
pub use models::date::Date;
pub use models::group::Group;
pub use models::lesson::Lesson;
pub use models::requests::{
    CallRequest, CreateParserRequest, CreateParserResponse, LessonRequest, UpdateCallsRequest,
    UpdateGroupsRequest, UpdateLessonsRequest,
};
pub use models::schedule::Schedule;
pub use models::time::Time;
pub use models::{Day, Week, Weekday};
