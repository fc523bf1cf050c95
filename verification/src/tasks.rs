//! Search and submission utilities for tasks.
//!
//! Tasks are the underlying operations of the archive. Each task runs one
//! [`Command`]; most are queued automatically after an upload or a metadata
//! change.

use crate::config::{effective_useragent, text_of, useragent_or_default};
use crate::credentials::Credentials;
use crate::headers::RequestHeaderExt;
use crate::http::{
    add_query, error_response, error_status, headers_after_set, request_headers, request_method,
    request_url, response_of, set_line, start, status_of, url_with_query,
};
use crate::params::{
    distinct_keys, lemma_lookup_distinct, lemma_position_from, lookup, Pairs, Params,
};
use crate::text::{decimal, lemma_decimal_injective, render_usize};
use std::collections::HashMap;
use vstd::prelude::*;
use vstd::std_specs::hash::*;
use vstd::std_specs::iter::IteratorSpec;
use vstd::string::*;

pub mod decode;
pub mod search;
pub mod submit;

verus! {

broadcast use vstd::std_specs::hash::group_hash_axioms;

/// Creates a new task search request.
pub fn search() -> (r: search::SearchRequest)
    ensures
        r@ == search::SearchRequest::initial(),
{
    search::SearchRequest::new()
}

/// Creates a new task submission request.
pub fn submit() -> (r: submit::SubmitRequest)
    ensures
        r.credentials is None,
        r.useragent@ == crate::config::DEFAULT_USER_AGENT@,
{
    submit::SubmitRequest::new()
}

/// The address of the task-log service.
pub open spec fn log_endpoint() -> Seq<char> {
    "https://catalogd.archive.org/services/tasks.php"@
}

/// Prepares the request that retrieves the log of one task: a GET with the
/// task's number as the `task_log` query parameter, the `User-Agent` in force
/// and the caller's keys. Sending it is left to the caller.
pub fn log_request(task_id: usize, creds: &Credentials, useragent: Option<String>) -> (r:
    ureq::Request)
    ensures
        request_method(r) == "GET"@,
        request_url(r) == url_with_query(log_endpoint(), "task_log"@, decimal(task_id as nat)),
        request_headers(r) == headers_after_set(
            headers_after_set(
                Seq::empty(),
                "user-agent"@,
                effective_useragent(text_of(useragent)),
            ),
            "authorization"@,
            "LOW "@ + creds.access@ + ":"@ + creds.secret@,
        ),
{
    let agent = useragent_or_default(useragent);
    let number = render_usize(task_id);
    let request = start("GET", "https://catalogd.archive.org/services/tasks.php");
    let request = add_query(request, "task_log", number.as_str());
    let request = set_line(request, "user-agent", agent.as_str());
    request.set_header(creds.to_header())
}

/// Why a task operation failed.
#[derive(Debug)]
pub enum TaskError {
    /// An error while reading a response.
    Io(std::io::Error),
    /// The request could not be carried out, or the service answered with a
    /// status other than 403.
    Ureq(ureq::Error),
    /// The service answered 403 Forbidden, usually for want of valid
    /// credentials.
    Forbidden(ureq::Response),
    /// The response body is not the envelope that the service promises.
    Parse(search::ParseFailure),
}

impl TaskError {
    /// Classifies the outcome of a call, for every operation alike: an answer
    /// is handed on as it came, a failure is classified by `from_call`.
    pub fn classify(outcome: Result<ureq::Response, ureq::Error>) -> (r: Result<
        ureq::Response,
        TaskError,
    >)
        ensures
            outcome is Ok ==> r is Ok && r->Ok_0 == outcome->Ok_0,
            outcome is Err ==> r is Err,
            outcome is Err ==> (r->Err_0 is Forbidden <==> error_status(outcome->Err_0) == Some(
                403u16,
            )),
            outcome is Err && r->Err_0 is Forbidden ==> Some(r->Err_0->Forbidden_0)
                == error_response(outcome->Err_0),
            outcome is Err && !(r->Err_0 is Forbidden) ==> r->Err_0 == TaskError::Ureq(outcome->Err_0),
    {
        match outcome {
            Ok(response) => Ok(response),
            Err(error) => Err(TaskError::from_call(error)),
        }
    }

    /// Classifies a failed call: a 403 answer is `Forbidden`, whatever its
    /// body holds, and carries the response as it came; every other failure
    /// is handed on as it came.
    pub fn from_call(error: ureq::Error) -> (r: TaskError)
        ensures
            r is Forbidden <==> error_status(error) == Some(403u16),
            r is Forbidden ==> Some(r->Forbidden_0) == error_response(error),
            !(r is Forbidden) ==> r == TaskError::Ureq(error),
    {
        match status_of(&error) {
            Some(code) => {
                if code == 403 {
                    match response_of(error) {
                        Ok(response) => TaskError::Forbidden(response),
                        Err(other) => TaskError::Ureq(other),
                    }
                } else {
                    TaskError::Ureq(error)
                }
            },
            None => TaskError::Ureq(error),
        }
    }
}

impl From<std::io::Error> for TaskError {
    fn from(value: std::io::Error) -> (r: TaskError) {
        TaskError::Io(value)
    }
}

impl vstd::std_specs::convert::FromSpecImpl<std::io::Error> for TaskError {
    open spec fn obeys_from_spec() -> bool {
        true
    }

    open spec fn from_spec(value: std::io::Error) -> TaskError {
        TaskError::Io(value)
    }
}

impl From<ureq::Error> for TaskError {
    fn from(value: ureq::Error) -> (r: TaskError)
        ensures
            r is Forbidden <==> error_status(value) == Some(403u16),
            r is Forbidden ==> Some(r->Forbidden_0) == error_response(value),
            !(r is Forbidden) ==> r == TaskError::Ureq(value),
    {
        TaskError::from_call(value)
    }
}

impl vstd::std_specs::convert::FromSpecImpl<ureq::Error> for TaskError {
    open spec fn obeys_from_spec() -> bool {
        false
    }

    open spec fn from_spec(value: ureq::Error) -> TaskError {
        TaskError::Ureq(value)
    }
}

/// Task commands available on the archive.
#[derive(Debug, Clone, PartialEq)]
pub enum Command {
    /// Unknown use.
    Archive,
    /// Operations related to books: each is a number with its argument.
    BookOp { operations: HashMap<usize, String> },
    /// Backs the primary copy of the item up to its secondary server.
    Bup,
    /// Deletes the item and all of its files. This cannot be reversed.
    Delete,
    /// Performs a derive on the item, after removing the previously derived
    /// files that `remove_derived` matches.
    Derive { remove_derived: String },
    /// A miscellaneous operation, usually to correct an issue.
    Fixer { args: Params },
    /// Makes the item unavailable to every user.
    MakeDark { comment: String },
    /// Makes a darked item available again.
    MakeUndark { comment: String },
    /// Unknown use.
    ModifyXml,
    /// Attempts to rename the item's identifier.
    Rename { new_identifier: String },
    /// A command constructed by the caller, with its name (wildcards `*` and
    /// `%` permitted) and its arguments.
    Custom { name: String, args: Params },
}

/// The argument name of a numbered book operation.
pub open spec fn operation_key(number: usize) -> Seq<char> {
    "op"@ + decimal(number as nat)
}

/// `pairs` are the arguments of a row of book operations: one pair for each
/// operation, under the key of its number, and no other pair. The order of
/// the pairs is left open, as the order of the operations is.
pub open spec fn book_args(operations: Map<usize, String>, pairs: Pairs) -> bool {
    &&& pairs.len() == operations.dom().len()
    &&& distinct_keys(pairs)
    &&& forall|number: usize| #[trigger]
        operations.contains_key(number) ==> lookup(pairs, operation_key(number)) == Some(
            operations[number]@,
        )
}

/// Two operations with one argument name have one number.
pub proof fn lemma_operation_key_injective(a: usize, b: usize)
    requires
        operation_key(a) == operation_key(b),
    ensures
        a == b,
{
    let prefix = "op"@;
    let first = operation_key(a);
    let second = operation_key(b);
    assert(first.subrange(prefix.len() as int, first.len() as int) =~= decimal(a as nat));
    assert(second.subrange(prefix.len() as int, second.len() as int) =~= decimal(b as nat));
    lemma_decimal_injective(a as nat, b as nat);
}

/// A list that holds one pair.
pub open spec fn single(key: Seq<char>, value: Seq<char>) -> Pairs {
    seq![(key, value)]
}

fn book_operation_args(operations: &HashMap<usize, String>) -> (r: Params)
    ensures
        book_args(operations@, r@),
{
    let mut list = Params::new();
    let walk = operations.iter();
    let ghost all = walk.remaining();
    for entry in iter: walk
        invariant
            iter.seq() == all,
            all.len() == operations@.dom().len(),
            all.no_duplicates(),
            forall|j: int|
                0 <= j < all.len() ==> operations@.contains_key(*(#[trigger] all[j]).0)
                    && operations@[*all[j].0] == *all[j].1,
            list@.len() == iter.index(),
            distinct_keys(list@),
            forall|j: int|
                0 <= j < iter.index() ==> (#[trigger] list@[j]) == (
                    operation_key(*all[j].0),
                    all[j].1@,
                ),
    {
        let key = String::from_str("op").concat(render_usize(*entry.0).as_str());
        proof {
            let here = iter.index() as int;
            assert forall|j: int| 0 <= j < list@.len() implies list@[j].0 != key@ by {
                if list@[j].0 == key@ {
                    lemma_operation_key_injective(*all[j].0, *all[here].0);
                    assert(all[j] == all[here]);
                }
            }
            lemma_position_from(list@, key@, 0, list@.len() as int);
        }
        list = list.insert(key, entry.1.clone());
    }
    proof {
        assert(list@.len() == all.len());
        assert forall|number: usize| #[trigger] operations@.contains_key(number) implies lookup(
            list@,
            operation_key(number),
        ) == Some(operations@[number]@) by {
            let found = (&number, &operations@[number]);
            assert(all.contains(found));
            let at = choose|j: int| 0 <= j < all.len() && all[j] == found;
            assert(list@[at] == (operation_key(number), operations@[number]@));
            lemma_lookup_distinct(list@, at);
        }
    }
    list
}

fn pair(key: &str, value: &String) -> (r: Params)
    ensures
        r@ == single(key@, value@),
{
    let r = Params::new().insert(String::from_str(key), value.clone());
    assert(r@ =~= single(key@, value@));
    r
}

impl Command {
    /// The name of the command, as a spec value.
    pub open spec fn name_text(&self) -> Seq<char> {
        match self {
            Command::Archive => "archive.php"@,
            Command::BookOp { .. } => "book_op.php"@,
            Command::Bup => "bup.php"@,
            Command::Delete => "delete.php"@,
            Command::Derive { .. } => "derive.php"@,
            Command::Fixer { .. } => "fixer.php"@,
            Command::MakeDark { .. } => "make_dark.php"@,
            Command::MakeUndark { .. } => "make_undark.php"@,
            Command::ModifyXml => "modify_xml.php"@,
            Command::Rename { .. } => "rename.php"@,
            Command::Custom { name, .. } => name@,
        }
    }

    /// Whether `pairs` is the argument list of the command. For every command
    /// but a row of book operations there is one such list.
    pub open spec fn has_args(&self, pairs: Pairs) -> bool {
        match self {
            Command::Archive => pairs == Seq::<(Seq<char>, Seq<char>)>::empty(),
            Command::BookOp { operations } => book_args(operations@, pairs),
            Command::Bup => pairs == Seq::<(Seq<char>, Seq<char>)>::empty(),
            Command::Delete => pairs == Seq::<(Seq<char>, Seq<char>)>::empty(),
            Command::Derive { remove_derived } => pairs == single(
                "remove_derived"@,
                remove_derived@,
            ),
            Command::Fixer { args } => pairs == args@,
            Command::MakeDark { comment } => pairs == single("comment"@, comment@),
            Command::MakeUndark { comment } => pairs == single("comment"@, comment@),
            Command::ModifyXml => pairs == Seq::<(Seq<char>, Seq<char>)>::empty(),
            Command::Rename { new_identifier } => pairs == single(
                "new_identifier"@,
                new_identifier@,
            ),
            Command::Custom { args, .. } => pairs == args@,
        }
    }

    /// Returns the name of the command.
    pub fn name(&self) -> (r: &str)
        ensures
            r@ == self.name_text(),
    {
        match self {
            Command::Archive => "archive.php",
            Command::BookOp { .. } => "book_op.php",
            Command::Bup => "bup.php",
            Command::Delete => "delete.php",
            Command::Derive { .. } => "derive.php",
            Command::Fixer { .. } => "fixer.php",
            Command::MakeDark { .. } => "make_dark.php",
            Command::MakeUndark { .. } => "make_undark.php",
            Command::ModifyXml => "modify_xml.php",
            Command::Rename { .. } => "rename.php",
            Command::Custom { name, .. } => name.as_str(),
        }
    }

    /// Creates the argument list for task submission requests.
    pub fn args(&self) -> (r: Params)
        ensures
            self.has_args(r@),
    {
        match self {
            Command::Archive => Params::new(),
            Command::BookOp { operations } => book_operation_args(operations),
            Command::Bup => Params::new(),
            Command::Delete => Params::new(),
            Command::Derive { remove_derived } => pair("remove_derived", remove_derived),
            Command::Fixer { args } => args.clone(),
            Command::MakeDark { comment } => pair("comment", comment),
            Command::MakeUndark { comment } => pair("comment", comment),
            Command::ModifyXml => Params::new(),
            Command::Rename { new_identifier } => pair("new_identifier", new_identifier),
            Command::Custom { args, .. } => args.clone(),
        }
    }
}

/// The current status of a catalogued task.
#[derive(Debug, Clone, Copy, PartialEq, Eq, Structural)]
pub enum Status {
    /// Task is queued (green, `wait_admin` 0).
    Queued,
    /// Task is running (blue, `wait_admin` 1).
    Running,
    /// Task has thrown an error (red, `wait_admin` 2).
    Error,
    /// Task is currently paused (brown, `wait_admin` 9).
    Paused,
}

impl Status {
    /// The `wait_admin` number of the status.
    pub open spec fn code(&self) -> nat {
        match self {
            Status::Queued => 0,
            Status::Running => 1,
            Status::Error => 2,
            Status::Paused => 9,
        }
    }

    /// The display colour of the status.
    pub open spec fn color_name(&self) -> Seq<char> {
        match self {
            Status::Queued => "green"@,
            Status::Running => "blue"@,
            Status::Error => "red"@,
            Status::Paused => "brown"@,
        }
    }

    /// Returns the color associated with this status.
    pub fn color(&self) -> (r: String)
        ensures
            r@ == self.color_name(),
    {
        match self {
            Status::Queued => String::from_str("green"),
            Status::Running => String::from_str("blue"),
            Status::Error => String::from_str("red"),
            Status::Paused => String::from_str("brown"),
        }
    }

    /// Returns the `wait_admin` value associated with this status.
    pub fn wait_admin(&self) -> (r: usize)
        ensures
            r == self.code(),
    {
        match self {
            Status::Queued => 0,
            Status::Running => 1,
            Status::Error => 2,
            Status::Paused => 9,
        }
    }

    /// The status as it is written in a query: its `wait_admin` number.
    pub fn to_string(&self) -> (r: String)
        ensures
            r@ == decimal(self.code()),
    {
        render_usize(self.wait_admin())
    }
}

} // verus!
