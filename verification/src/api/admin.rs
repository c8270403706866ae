//! The admin sub-API: parser registration and removal.
//!
//! Both operations require the bearer credential of the
//! [`AuthenticatedClient`] they were reached through; the server enforces
//! authorization, the client performs no local permission check.

use vstd::prelude::*;
use vstd::string::StringExecFns;

use crate::auth::AuthenticatedClient;
use crate::http::{Method, PreparedRequest, RequestBody};
use crate::models::requests::CreateParserRequest;
use crate::utils::strings::{dec_str, u32_to_string};

verus! {

/// The admin operations of one authenticated client.
pub struct AdminApi {
    pub client: AuthenticatedClient,
}

impl AdminApi {
    pub fn new(client: AuthenticatedClient) -> (r: Self)
        ensures
            r.client == client,
    {
        AdminApi { client }
    }

    /// Describes the POST that registers a new parser; the answer body
    /// carries the parser's credential.
    pub fn create_parser_request(&self, request: CreateParserRequest) -> (r: PreparedRequest)
        ensures
            r.method == Method::Post,
            r.path@ == "/admin/parser"@,
            r.bearer_token == self.client.auth.token,
            r.body == Some(RequestBody::CreateParser(request)),
    {
        PreparedRequest {
            method: Method::Post,
            path: String::from_str("/admin/parser"),
            bearer_token: self.client.auth.cloned_token(),
            body: Some(RequestBody::CreateParser(request)),
        }
    }

    /// Describes the DELETE that removes a parser.
    pub fn delete_parser_request(&self, parser_id: u32) -> (r: PreparedRequest)
        ensures
            r.method == Method::Delete,
            r.path@ == "/admin/parser/"@ + dec_str(parser_id as nat),
            r.bearer_token == self.client.auth.token,
            r.body is None,
    {
        let mut path = String::from_str("/admin/parser/");
        path.append(u32_to_string(parser_id).as_str());
        PreparedRequest {
            method: Method::Delete,
            path,
            bearer_token: self.client.auth.cloned_token(),
            body: None,
        }
    }
}

} // verus!
