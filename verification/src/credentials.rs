//! The key pair that authenticates a caller.

use crate::headers::Header;
use crate::http::{headers_after_set, request_headers, request_method, request_url, set_line};
use vstd::prelude::*;
use vstd::string::*;

verus! {

/// Container for authentication keys required by portions of the API.
#[derive(Debug, PartialEq)]
pub struct Credentials {
    pub access: String,
    pub secret: String,
}

impl Clone for Credentials {
    fn clone(&self) -> (r: Credentials)
        ensures
            r == *self,
    {
        Credentials { access: self.access.clone(), secret: self.secret.clone() }
    }
}

/// A copy of an optional pair of credentials.
pub fn copy_of(credentials: &Option<Credentials>) -> (r: Option<Credentials>)
    ensures
        r == *credentials,
{
    match credentials {
        Some(c) => Some(c.clone()),
        None => None,
    }
}

/// The keys of an optional pair of credentials, as plain text.
pub open spec fn keys_of(credentials: Option<Credentials>) -> Option<(Seq<char>, Seq<char>)> {
    match credentials {
        Some(c) => Some((c.access@, c.secret@)),
        None => None,
    }
}

/// A pair of strings read from the environment is usable when both are there
/// and neither is empty.
pub open spec fn usable_pair(access: Option<String>, secret: Option<String>) -> bool {
    access is Some && secret is Some && access.unwrap()@.len() > 0 && secret.unwrap()@.len() > 0
}

/// `lines` with the authorization line for `keys` set, where there are keys.
pub open spec fn authorized(
    lines: Seq<(Seq<char>, Seq<char>)>,
    keys: Option<(Seq<char>, Seq<char>)>,
) -> Seq<(Seq<char>, Seq<char>)> {
    match keys {
        Some(pair) => headers_after_set(
            lines,
            "authorization"@,
            "LOW "@ + pair.0 + ":"@ + pair.1,
        ),
        None => lines,
    }
}

/// Sets the authorization line for `credentials` on `request`, where there
/// are any.
pub fn authorize(request: ureq::Request, credentials: &Option<Credentials>) -> (r: ureq::Request)
    ensures
        request_headers(r) == authorized(request_headers(request), keys_of(*credentials)),
        request_url(r) == request_url(request),
        request_method(r) == request_method(request),
{
    match credentials {
        Some(c) => {
            let line = c.to_header().render();
            set_line(request, line.0.as_str(), line.1.as_str())
        },
        None => request,
    }
}

impl Credentials {
    /// Creates a new instance using an access key and a secret key. Neither is
    /// looked at.
    pub fn new(access: &str, secret: &str) -> (r: Credentials)
        ensures
            r.access@ == access@,
            r.secret@ == secret@,
    {
        Credentials { access: String::from_str(access), secret: String::from_str(secret) }
    }

    /// Makes credentials of the two values that a loader found, each absent
    /// where it found none. A missing or empty value gives `None`.
    pub fn try_from_values(access: Option<String>, secret: Option<String>) -> (r: Option<
        Credentials,
    >)
        ensures
            r is Some <==> usable_pair(access, secret),
            r is Some ==> r.unwrap().access == access.unwrap() && r.unwrap().secret
                == secret.unwrap(),
    {
        match (access, secret) {
            (Some(access), Some(secret)) => {
                if access.as_str().is_empty() || secret.as_str().is_empty() {
                    None
                } else {
                    Some(Credentials { access, secret })
                }
            },
            _ => None,
        }
    }

    /// The `Authorization` directive for these keys.
    pub fn to_header(&self) -> (h: Header)
        ensures
            h == (Header::Authorization { access: self.access, secret: self.secret }),
            h.wire_name() == "authorization"@,
            h.wire_value() == "LOW "@ + self.access@ + ":"@ + self.secret@,
    {
        Header::Authorization { access: self.access.clone(), secret: self.secret.clone() }
    }
}

impl<'a> From<&'a Credentials> for Header {
    fn from(value: &'a Credentials) -> (h: Header) {
        value.to_header()
    }
}

impl<'a> vstd::std_specs::convert::FromSpecImpl<&'a Credentials> for Header {
    open spec fn obeys_from_spec() -> bool {
        true
    }

    open spec fn from_spec(value: &'a Credentials) -> Header {
        Header::Authorization { access: value.access, secret: value.secret }
    }
}

} // verus!
