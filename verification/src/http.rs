//! Plain descriptions of outgoing requests, and interpretation of answers.
//!
//! A terminal builder operation does not perform I/O.  It yields a
//! [`PreparedRequest`]: a plain value naming the method, the path (with its
//! query string), the optional bearer credential, and the optional body
//! record.  The embedding application sends it and hands the status and
//! body text back to [`interpret_status`].

use vstd::prelude::*;
use vstd::string::StringExecFns;

use crate::error::{normalized_message, Error};
use crate::models::requests::{
    CreateParserRequest, UpdateCallsRequest, UpdateGroupsRequest, UpdateLessonsRequest,
};

verus! {

/// The HTTP method of a prepared request.
#[derive(Debug, Clone, Copy, PartialEq, Eq, Structural)]
pub enum Method {
    Get,
    Post,
    Delete,
}

/// The body record of a prepared mutation request.  The wire encoding of
/// the record is left to the sender.
#[derive(Debug, Clone)]
pub enum RequestBody {
    CreateParser(CreateParserRequest),
    UpdateGroups(UpdateGroupsRequest),
    UpdateCalls(UpdateCallsRequest),
    UpdateLessons(UpdateLessonsRequest),
}

/// One fully described outgoing request: everything the transport needs,
/// and nothing it decides.
#[derive(Debug)]
pub struct PreparedRequest {
    /// The HTTP method.
    pub method: Method,
    /// The path below the base endpoint, query string included.
    pub path: String,
    /// The bearer credential to attach, when one is configured.
    pub bearer_token: Option<String>,
    /// The body record of a mutation, when the request carries one.
    pub body: Option<RequestBody>,
}

/// The query string that an optional name filter contributes to a
/// collection path: `?name=<value>` when set, nothing otherwise.
pub open spec fn name_query_seq(name: Option<Seq<char>>) -> Seq<char> {
    match name {
        Some(n) => "?name="@ + n,
        None => Seq::<char>::empty(),
    }
}

/// A collection path: the prefix with the optional name filter appended.
pub fn collection_path(prefix: &str, name: &Option<String>) -> (r: String)
    ensures
        r@ == prefix@ + name_query_seq(name.deep_view()),
{
    let mut r = String::from_str(prefix);
    match name {
        Some(n) => {
            r.append("?name=");
            r.append(n.as_str());
        },
        None => {},
    }
    proof {
        assert(r@ =~= prefix@ + name_query_seq(name.deep_view()));
    }
    r
}

/// True for the HTTP status codes that count as success.
pub open spec fn is_success_status(status: u16) -> bool {
    200 <= status < 300
}

/// Maps an HTTP answer to its body on success and to the normalized
/// [`Error::Api`] of [`Error::from_response`] otherwise.
pub fn interpret_status(status: u16, body: String) -> (r: Result<String, Error>)
    ensures
        r is Ok <==> is_success_status(status),
        r matches Ok(b) ==> b == body,
        !is_success_status(status) ==> (r matches Err(e) && e matches Error::Api {
            status_code,
            message,
        } && status_code == status && message@ == normalized_message(
            crate::error::json_error_field(body@),
            body@,
        )),
{
    if 200 <= status && status < 300 {
        Ok(body)
    } else {
        Err(Error::from_response(status, body))
    }
}

} // verus!
