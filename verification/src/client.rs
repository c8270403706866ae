//! The root client: base endpoint configuration and the transport handle.
//!
//! A [`Client`] is immutable after construction; the `with_*` methods
//! consume and return a new value, so a configured client is safe to share
//! across concurrent call sites.  The carried transport handle is opaque
//! here: the library only stores it and hands it back to the sender.

use vstd::prelude::*;
use vstd::string::StringExecFns;

use reqwest::Client as HttpClient;

use crate::api::colleges::{CollegeQuery, CollegesQuery};

verus! {

/// Declares reqwest's asynchronous HTTP client, so that a configured
/// [`Client`] can carry the connection pool it was built with.  The value
/// is opaque to the library: nothing is read from it.
#[verifier::external_type_specification]
#[verifier::external_body]
pub struct ExReqwestClient(HttpClient);

/// Relies on `reqwest::Client::new` to build the default transport client.
/// Nothing is assumed of the value; the library only carries it.  reqwest
/// documents that construction aborts when the transport stack cannot be
/// initialized; building a client inherits that behavior.
#[verifier::external_body]
fn new_http_client() -> HttpClient {
    HttpClient::new()
}

/// Relies on `reqwest::Client::clone`, which hands out a second handle to
/// the same connection pool.  Nothing is assumed of the value.
#[verifier::external_body]
fn clone_http_client(http_client: &HttpClient) -> HttpClient {
    http_client.clone()
}

/// The root object of the library: the base endpoint, the transport
/// handle, and an optional remembered default college id.
#[derive(Debug)]
pub struct Client {
    /// Base endpoint; request paths are appended to it verbatim.
    pub base_url: String,
    /// The transport handle that will send the prepared requests.
    pub http_client: HttpClient,
    /// The college id that [`Client::college`] falls back to.
    pub default_college_id: Option<u32>,
}

impl Client {
    /// True when `other` carries the same configuration (the transport
    /// handle is opaque and not compared).
    pub open spec fn same_config(self, other: Client) -> bool {
        self.base_url == other.base_url && self.default_college_id == other.default_college_id
    }

    /// A client for the given base endpoint, with a fresh transport handle.
    pub fn new(base_url: &str) -> (r: Self)
        ensures
            r.base_url@ == base_url@,
            r.default_college_id is None,
    {
        Client {
            base_url: base_url.to_owned(),
            http_client: new_http_client(),
            default_college_id: None,
        }
    }

    /// A client for the given base endpoint that reuses an existing
    /// transport handle.
    pub fn with_client(base_url: &str, http_client: HttpClient) -> (r: Self)
        ensures
            r.base_url@ == base_url@,
            r.default_college_id is None,
    {
        Client { base_url: base_url.to_owned(), http_client, default_college_id: None }
    }

    /// Remembers a default college id for [`Client::college`].
    pub fn with_college(self, college_id: u32) -> (r: Self)
        ensures
            r.base_url == self.base_url,
            r.default_college_id == Some(college_id),
    {
        Client { default_college_id: Some(college_id), ..self }
    }

    /// The collection of colleges under this endpoint.
    pub fn colleges<'a>(&'a self) -> (r: CollegesQuery<'a>)
        ensures
            r.client == self,
            r.name is None,
    {
        CollegesQuery::new(self)
    }

    /// The remembered default college.  A default college must have been
    /// configured with [`Client::with_college`] first; requesting the
    /// shortcut without one is a programmer error and is ruled out here
    /// rather than detected at run time.
    pub fn college<'a>(&'a self) -> (r: CollegeQuery<'a>)
        requires
            self.default_college_id is Some,
        ensures
            r.client == self,
            Some(r.college_id) == self.default_college_id,
    {
        let college_id = match self.default_college_id {
            Some(college_id) => college_id,
            None => 0,  // ruled out by the precondition
        };
        CollegeQuery::new(self, college_id)
    }

    /// The absolute URL of a request path: the base endpoint with the path
    /// appended verbatim.
    pub fn full_url(&self, path: &str) -> (r: String)
        ensures
            r@ == self.base_url@ + path@,
    {
        let mut r = self.base_url.clone();
        r.append(path);
        r
    }
}

impl Clone for Client {
    /// The clone carries the same configuration and a handle to the same
    /// connection pool.
    fn clone(&self) -> (r: Self)
        ensures
            r.same_config(*self),
    {
        Client {
            base_url: self.base_url.clone(),
            http_client: clone_http_client(&self.http_client),
            default_college_id: self.default_college_id,
        }
    }
}

} // verus!
