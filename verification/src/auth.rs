//! Bearer credentials and the authenticated client.
//!
//! An [`AuthenticatedClient`] wraps a [`Client`] together with an optional
//! bearer credential.  Every request built through it attaches
//! `Authorization: Bearer <token>` when a token is present, and no
//! authorization header at all when none is.

use vstd::prelude::*;
use vstd::string::StringExecFns;

use crate::api::admin::AdminApi;
use crate::api::parser::ParserApi;
use crate::client::Client;

verus! {

/// An optional bearer credential.
#[derive(Debug)]
pub struct Auth {
    pub token: Option<String>,
}

impl Auth {
    pub fn new(token: Option<String>) -> (r: Self)
        ensures
            r.token == token,
    {
        Auth { token }
    }

    /// Replaces the credential (last write wins).
    pub fn with_token(self, token: &str) -> (r: Self)
        ensures
            r.token matches Some(t) && t@ == token@,
    {
        Auth { token: Some(token.to_owned()) }
    }

    /// Discards the credential.
    pub fn clear_token(self) -> (r: Self)
        ensures
            r.token is None,
    {
        Auth { token: None }
    }

    /// A copy of the raw bearer token, as a prepared request carries it.
    pub fn cloned_token(&self) -> (r: Option<String>)
        ensures
            r == self.token,
    {
        match &self.token {
            Some(t) => Some(t.clone()),
            None => None,
        }
    }

    /// The value of the `Authorization` header that requests built with
    /// this credential attach: exactly `Bearer <token>` when a token is
    /// present, and no header at all when none is.
    pub fn authorization_header(&self) -> (r: Option<String>)
        ensures
            r is None <==> self.token is None,
            self.token matches Some(t) ==> (r matches Some(h) && h@ == "Bearer "@ + t@),
    {
        match &self.token {
            Some(t) => Some(String::from_str("Bearer ").concat(t.as_str())),
            None => None,
        }
    }
}

impl Clone for Auth {
    /// The clone carries the very same credential.
    fn clone(&self) -> (r: Self)
        ensures
            r == *self,
    {
        let r = Auth {
            token: match &self.token {
                Some(t) => Some(t.clone()),
                None => None,
            },
        };
        proof {
            assert(r.token == self.token);
        }
        r
    }
}

/// A [`Client`] together with an optional bearer credential; the only
/// reach into the admin and parser sub-APIs.
#[derive(Debug)]
pub struct AuthenticatedClient {
    pub client: Client,
    pub auth: Auth,
}

impl AuthenticatedClient {
    /// Wraps a client with no credential yet.
    pub fn new(client: Client) -> (r: Self)
        ensures
            r.client == client,
            r.auth.token is None,
    {
        AuthenticatedClient { client, auth: Auth::new(None) }
    }

    /// Replaces the credential (last write wins).
    pub fn with_token(self, token: &str) -> (r: Self)
        ensures
            r.client == self.client,
            r.auth.token matches Some(t) && t@ == token@,
    {
        AuthenticatedClient { client: self.client, auth: self.auth.with_token(token) }
    }

    /// The admin sub-API, sharing this client's configuration and
    /// credential.
    pub fn admin(&self) -> (r: AdminApi)
        ensures
            r.client.client.same_config(self.client),
            r.client.auth == self.auth,
    {
        AdminApi::new(self.clone())
    }

    /// The parser sub-API, sharing this client's configuration and
    /// credential.
    pub fn parser(&self) -> (r: ParserApi)
        ensures
            r.client.client.same_config(self.client),
            r.client.auth == self.auth,
    {
        ParserApi::new(self.clone())
    }
}

impl Clone for AuthenticatedClient {
    /// The clone carries the same configuration and the same credential.
    fn clone(&self) -> (r: Self)
        ensures
            r.client.same_config(self.client),
            r.auth == self.auth,
    {
        AuthenticatedClient { client: self.client.clone(), auth: self.auth.clone() }
    }
}

} // verus!
