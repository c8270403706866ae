//! The closed set of error kinds, and normalization of server failures.
//!
//! Every failure a caller can see is one of the five kinds below.  A
//! non-success HTTP answer is normalized by [`Error::from_response`]: when
//! the body is a JSON object carrying a string field named `error`, that
//! string becomes the message; otherwise the raw body text does.

use vstd::prelude::*;

verus! {

/// An error returned by the library.  Errors are returned, never used for
/// normal control flow, and the first failure short-circuits a call.
#[derive(Debug)]
pub enum Error {
    /// A network or connection failure below the HTTP layer.
    Transport(String),
    /// A non-success HTTP answer, with its status and normalized message.
    Api { status_code: u16, message: String },
    /// A malformed payload that could not be decoded.
    Serialization(String),
    /// A resource that does not exist.
    NotFound(String),
    /// A client-side precondition failure; never sent over the wire.
    Validation(String),
}

/// The message that a body with the given extracted `error` field
/// normalizes to: the extracted string when there is one, the raw body
/// text otherwise.
pub open spec fn normalized_message(extracted: Option<Seq<char>>, body: Seq<char>) -> Seq<char> {
    match extracted {
        Some(m) => m,
        None => body,
    }
}

/// The string value of the `error` field of `body`, when `body` parses as
/// a JSON object carrying one.
pub uninterp spec fn json_error_field(body: Seq<char>) -> Option<Seq<char>>;

/// Relies on `serde_json::from_str::<serde_json::Value>`, then
/// `serde_json::Value::get("error")` and `serde_json::Value::as_str`, to
/// read the string value of a top-level `error` field.  Whether the text
/// parses, and what the field holds, depend on the text alone; the
/// composite result is named by [`json_error_field`].
#[verifier::external_body]
fn extract_error_field(body: &str) -> (r: Option<String>)
    ensures
        r matches Some(m) ==> json_error_field(body@) == Some(m@),
        r is None ==> json_error_field(body@) is None,
{
    match serde_json::from_str::<serde_json::Value>(body) {
        Err(_) => None,
        Ok(v) => match v.get("error") {
            None => None,
            Some(f) => match f.as_str() {
                None => None,
                Some(s) => Some(s.to_string()),
            },
        },
    }
}

impl Error {
    /// Normalizes a non-success HTTP answer into an [`Error::Api`], given
    /// the already extracted `error` field of the body.
    pub fn api_from_parts(status: u16, extracted: Option<String>, body: String) -> (r: Error)
        ensures
            r matches Error::Api { status_code, message } && status_code == status && message@
                == normalized_message(
                match extracted {
                    Some(m) => Some(m@),
                    None => None,
                },
                body@,
            ),
    {
        match extracted {
            Some(message) => Error::Api { status_code: status, message },
            None => Error::Api { status_code: status, message: body },
        }
    }

    /// Normalizes a non-success HTTP answer into an [`Error::Api`]: the
    /// message is the string value of a top-level JSON `error` field when
    /// the body carries one, and the raw body text otherwise.
    pub fn from_response(status: u16, body: String) -> (r: Error)
        ensures
            r matches Error::Api { status_code, message } && status_code == status && message@
                == normalized_message(json_error_field(body@), body@),
    {
        let extracted = extract_error_field(body.as_str());
        Error::api_from_parts(status, extracted, body)
    }
}

} // verus!
