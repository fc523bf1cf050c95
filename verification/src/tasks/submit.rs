//! Requests that queue a new task.

use crate::config::DEFAULT_USER_AGENT;
use crate::credentials::Credentials;
use vstd::prelude::*;
use vstd::string::*;

verus! {

/// Request builder for submitting a task.
#[derive(Debug, Clone, PartialEq)]
pub struct SubmitRequest {
    pub credentials: Option<Credentials>,
    pub useragent: String,
}

impl SubmitRequest {
    /// A submission request without credentials and with the default
    /// `User-Agent`.
    pub fn new() -> (r: SubmitRequest)
        ensures
            r.credentials is None,
            r.useragent@ == DEFAULT_USER_AGENT@,
    {
        SubmitRequest { credentials: None, useragent: String::from_str(DEFAULT_USER_AGENT) }
    }
}

} // verus!
