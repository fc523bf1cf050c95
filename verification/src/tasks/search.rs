//! Task search: filters, the request that carries them, and the pages that
//! come back.

use crate::config::{effective_useragent, text_of, useragent_or_default, DEFAULT_USER_AGENT};
use crate::credentials::{authorize, authorized, copy_of, keys_of, Credentials};
use crate::http::{
    add_query, headers_after_set, request_headers, request_method, request_url, set_line,
    start, url_with_query,
};
use crate::json::{member, parse_value, parsed, shape};
use crate::params::{distinct_keys, lemma_put_twice, lookup, put, Pairs, Params};
use crate::tasks::decode::{bare_page, bool_member, envelope_page, inner_page_of};
use crate::tasks::{Status, TaskError};
use crate::text::{decimal, flag_text, render_flag, render_isize, render_usize, signed_decimal};
use vstd::prelude::*;
use vstd::string::*;

verus! {

/// Filters usable when requesting tasks. All filters of a request are AND-ed
/// together by the service. Wildcards (`*` or `%`) are passed on as written.
#[derive(Debug, PartialEq)]
pub enum Filter {
    /// Item identifier.
    Identifier(String),
    /// Task identification number.
    TaskId(usize),
    /// Name of the server the task was or will be performed on.
    Server(String),
    /// The name of the command that the task has or will have performed.
    Command(String),
    /// Email address of the user that submitted the task.
    Submitter(String),
    /// Priority of the task, typically from -10 to +10, with 0 as the default.
    Priority(isize),
    /// The current state of the task.
    State(Status),
    /// All tasks submitted after the provided date/time.
    SubmitTimeGt(String),
    /// All tasks submitted before the provided date/time.
    SubmitTimeLt(String),
    /// All tasks submitted on or after the provided date/time.
    SubmitTimeGte(String),
    /// All tasks submitted on or before the provided date/time.
    SubmitTimeLte(String),
}

impl Clone for Filter {
    fn clone(&self) -> (r: Filter)
        ensures
            r == *self,
    {
        match self {
            Filter::Identifier(v) => Filter::Identifier(v.clone()),
            Filter::TaskId(n) => Filter::TaskId(*n),
            Filter::Server(v) => Filter::Server(v.clone()),
            Filter::Command(v) => Filter::Command(v.clone()),
            Filter::Submitter(v) => Filter::Submitter(v.clone()),
            Filter::Priority(p) => Filter::Priority(*p),
            Filter::State(s) => Filter::State(*s),
            Filter::SubmitTimeGt(v) => Filter::SubmitTimeGt(v.clone()),
            Filter::SubmitTimeLt(v) => Filter::SubmitTimeLt(v.clone()),
            Filter::SubmitTimeGte(v) => Filter::SubmitTimeGte(v.clone()),
            Filter::SubmitTimeLte(v) => Filter::SubmitTimeLte(v.clone()),
        }
    }
}

impl Filter {
    /// The query key under which the filter is sent. Each kind of filter has
    /// one.
    pub open spec fn wire_key(&self) -> Seq<char> {
        match self {
            Filter::Identifier(_) => "identifier"@,
            Filter::TaskId(_) => "task_id"@,
            Filter::Server(_) => "server"@,
            Filter::Command(_) => "cmd"@,
            Filter::Submitter(_) => "submitter"@,
            Filter::Priority(_) => "priority"@,
            Filter::State(_) => "wait_admin"@,
            Filter::SubmitTimeGt(_) => "submittime>"@,
            Filter::SubmitTimeLt(_) => "submittime<"@,
            Filter::SubmitTimeGte(_) => "submittime>="@,
            Filter::SubmitTimeLte(_) => "submittime<="@,
        }
    }

    /// The query value that the filter sends.
    pub open spec fn wire_value(&self) -> Seq<char> {
        match self {
            Filter::Identifier(v) => v@,
            Filter::TaskId(n) => decimal(*n as nat),
            Filter::Server(v) => v@,
            Filter::Command(v) => v@,
            Filter::Submitter(v) => v@,
            Filter::Priority(p) => signed_decimal(*p as int),
            Filter::State(s) => decimal(s.code()),
            Filter::SubmitTimeGt(v) => v@,
            Filter::SubmitTimeLt(v) => v@,
            Filter::SubmitTimeGte(v) => v@,
            Filter::SubmitTimeLte(v) => v@,
        }
    }

    /// Whether two filters are of the same kind.
    pub open spec fn same_kind(&self, other: &Filter) -> bool {
        match (self, other) {
            (Filter::Identifier(_), Filter::Identifier(_)) => true,
            (Filter::TaskId(_), Filter::TaskId(_)) => true,
            (Filter::Server(_), Filter::Server(_)) => true,
            (Filter::Command(_), Filter::Command(_)) => true,
            (Filter::Submitter(_), Filter::Submitter(_)) => true,
            (Filter::Priority(_), Filter::Priority(_)) => true,
            (Filter::State(_), Filter::State(_)) => true,
            (Filter::SubmitTimeGt(_), Filter::SubmitTimeGt(_)) => true,
            (Filter::SubmitTimeLt(_), Filter::SubmitTimeLt(_)) => true,
            (Filter::SubmitTimeGte(_), Filter::SubmitTimeGte(_)) => true,
            (Filter::SubmitTimeLte(_), Filter::SubmitTimeLte(_)) => true,
            _ => false,
        }
    }

    /// Turns the filter into its query key and value.
    pub fn into_pair(self) -> (r: (String, String))
        ensures
            r.0@ == self.wire_key(),
            r.1@ == self.wire_value(),
    {
        match self {
            Filter::Identifier(v) => (String::from_str("identifier"), v),
            Filter::TaskId(n) => (String::from_str("task_id"), render_usize(n)),
            Filter::Server(v) => (String::from_str("server"), v),
            Filter::Command(v) => (String::from_str("cmd"), v),
            Filter::Submitter(v) => (String::from_str("submitter"), v),
            Filter::Priority(p) => (String::from_str("priority"), render_isize(p)),
            Filter::State(s) => (String::from_str("wait_admin"), s.to_string()),
            Filter::SubmitTimeGt(v) => (String::from_str("submittime>"), v),
            Filter::SubmitTimeLt(v) => (String::from_str("submittime<"), v),
            Filter::SubmitTimeGte(v) => (String::from_str("submittime>="), v),
            Filter::SubmitTimeLte(v) => (String::from_str("submittime<="), v),
        }
    }

    /// The filter that asks for the tasks of one command.
    pub fn for_command(command: &crate::tasks::Command) -> (r: Filter)
        ensures
            r is Command,
            r.wire_value() == command.name_text(),
    {
        Filter::Command(String::from_str(command.name()))
    }
}

impl From<crate::tasks::Command> for Filter {
    fn from(value: crate::tasks::Command) -> (r: Filter)
        ensures
            r is Command,
            r.wire_value() == value.name_text(),
    {
        Filter::for_command(&value)
    }
}

impl vstd::std_specs::convert::FromSpecImpl<crate::tasks::Command> for Filter {
    open spec fn obeys_from_spec() -> bool {
        false
    }

    open spec fn from_spec(value: crate::tasks::Command) -> Filter {
        arbitrary()
    }
}

impl From<Status> for Filter {
    fn from(value: Status) -> (r: Filter) {
        Filter::State(value)
    }
}

impl vstd::std_specs::convert::FromSpecImpl<Status> for Filter {
    open spec fn obeys_from_spec() -> bool {
        true
    }

    open spec fn from_spec(value: Status) -> Filter {
        Filter::State(value)
    }
}

/// Two filters of one kind are sent under one key.
pub proof fn lemma_same_kind_same_key(first: Filter, second: Filter)
    requires
        first.same_kind(&second),
    ensures
        first.wire_key() == second.wire_key(),
{
}

proof fn lemma_reveal_keys()
    ensures
        "identifier"@.len() == 10 && "identifier"@[0] == 'i',
        "task_id"@.len() == 7,
        "server"@.len() == 6,
        "cmd"@.len() == 3,
        "submitter"@.len() == 9,
        "priority"@.len() == 8,
        "wait_admin"@.len() == 10 && "wait_admin"@[0] == 'w',
        "submittime>"@.len() == 11 && "submittime>"@[10] == '>',
        "submittime<"@.len() == 11 && "submittime<"@[10] == '<',
        "submittime>="@.len() == 12 && "submittime>="@[10] == '>',
        "submittime<="@.len() == 12 && "submittime<="@[10] == '<',
{
    reveal_strlit("identifier");
    reveal_strlit("task_id");
    reveal_strlit("server");
    reveal_strlit("cmd");
    reveal_strlit("submitter");
    reveal_strlit("priority");
    reveal_strlit("wait_admin");
    reveal_strlit("submittime>");
    reveal_strlit("submittime<");
    reveal_strlit("submittime>=");
    reveal_strlit("submittime<=");
}

/// Two filters of different kinds are sent under different keys.
pub proof fn lemma_kinds_have_their_own_keys(first: Filter, second: Filter)
    requires
        !first.same_kind(&second),
    ensures
        first.wire_key() != second.wire_key(),
{
    lemma_reveal_keys();
    let a = first.wire_key();
    let b = second.wire_key();
    if a == b {
        assert(a.len() == b.len());
        assert(a[0] == b[0]);
        assert(a[10] == b[10]);
    }
}

/// A filter leaves the filters of every other kind as they were.
pub proof fn lemma_filter_keeps_other_kinds(filters: Pairs, added: Filter, other: Filter)
    requires
        !added.same_kind(&other),
    ensures
        lookup(put(filters, added.wire_key(), added.wire_value()), other.wire_key()) == lookup(
            filters,
            other.wire_key(),
        ),
{
    lemma_kinds_have_their_own_keys(added, other);
    crate::params::lemma_put_keeps_others(
        filters,
        added.wire_key(),
        added.wire_value(),
        other.wire_key(),
    );
}

/// The most tasks that the service returns for one call.
pub const LIMIT_CEILING: usize = 500;

/// What a search request holds, as plain values.
pub struct SearchView {
    pub credentials: Option<(Seq<char>, Seq<char>)>,
    pub useragent: Seq<char>,
    pub filters: Pairs,
    pub summary: bool,
    pub catalog: bool,
    pub history: bool,
    pub limit: nat,
}

/// Request builder for performing task searches. It may be used for any number
/// of calls: a call reads it and takes the cursor from outside.
#[derive(Debug, PartialEq)]
pub struct SearchRequest {
    credentials: Option<Credentials>,
    useragent: String,
    filters: Params,
    summary: bool,
    catalog: bool,
    history: bool,
    limit: usize,
}

impl View for SearchRequest {
    type V = SearchView;

    closed spec fn view(&self) -> SearchView {
        SearchView {
            credentials: keys_of(self.credentials),
            useragent: self.useragent@,
            filters: self.filters@,
            summary: self.summary,
            catalog: self.catalog,
            history: self.history,
            limit: self.limit as nat,
        }
    }
}

impl Clone for SearchRequest {
    fn clone(&self) -> (r: SearchRequest)
        ensures
            r@ == self@,
    {
        proof {
            use_type_invariant(self);
        }
        SearchRequest {
            credentials: copy_of(&self.credentials),
            useragent: self.useragent.clone(),
            filters: self.filters.clone(),
            summary: self.summary,
            catalog: self.catalog,
            history: self.history,
            limit: self.limit,
        }
    }
}

impl Default for SearchRequest {
    fn default() -> (r: SearchRequest)
        ensures
            r@ == SearchRequest::initial(),
    {
        SearchRequest {
            credentials: None,
            useragent: String::from_str(DEFAULT_USER_AGENT),
            filters: Params::new(),
            summary: true,
            catalog: false,
            history: false,
            limit: 50,
        }
    }
}

/// The address of the task-search service.
pub open spec fn endpoint() -> Seq<char> {
    "https://archive.org/services/tasks.php"@
}

/// `url` with the first `upto` pairs of `pairs` appended to its query, in
/// their order.
pub open spec fn with_pairs(url: Seq<char>, pairs: Pairs, upto: int) -> Seq<char>
    decreases upto,
{
    if upto <= 0 {
        url
    } else {
        url_with_query(with_pairs(url, pairs, upto - 1), pairs[upto - 1].0, pairs[upto - 1].1)
    }
}

/// The URL of one call: the endpoint with every filter, the three category
/// toggles, the limit and, where one is given, the cursor.
pub open spec fn search_url(request: SearchView, cursor: Option<Seq<char>>) -> Seq<char> {
    let filtered = with_pairs(endpoint(), request.filters, request.filters.len() as int);
    let summary = url_with_query(filtered, "summary"@, flag_text(request.summary));
    let catalog = url_with_query(summary, "catalog"@, flag_text(request.catalog));
    let history = url_with_query(catalog, "history"@, flag_text(request.history));
    let limited = url_with_query(history, "limit"@, decimal(request.limit));
    match cursor {
        Some(token) => url_with_query(limited, "cursor"@, token),
        None => limited,
    }
}

/// The header lines of one call: the `User-Agent`, then the authorization
/// where the request has credentials.
pub open spec fn search_lines(request: SearchView) -> Seq<(Seq<char>, Seq<char>)> {
    authorized(
        headers_after_set(Seq::empty(), "user-agent"@, request.useragent),
        request.credentials,
    )
}

impl SearchRequest {
    #[verifier::type_invariant]
    spec fn limit_within_ceiling(&self) -> bool {
        self.limit <= LIMIT_CEILING
    }

    /// What a fresh request holds: no credentials, the default `User-Agent`,
    /// no filter, the summary category alone, and a limit of 50.
    pub open spec fn initial() -> SearchView {
        SearchView {
            credentials: None,
            useragent: DEFAULT_USER_AGENT@,
            filters: Seq::empty(),
            summary: true,
            catalog: false,
            history: false,
            limit: 50,
        }
    }

    /// A fresh request.
    pub fn new() -> (r: SearchRequest)
        ensures
            r@ == SearchRequest::initial(),
    {
        SearchRequest::default()
    }

    /// Provide authentication credentials to be used with this request.
    pub fn with_credentials(self, credentials: Option<Credentials>) -> (r: SearchRequest)
        ensures
            r@ == (SearchView { credentials: keys_of(credentials), ..self@ }),
    {
        proof {
            use_type_invariant(&self);
        }
        let mut request = self;
        request.credentials = credentials;
        request
    }

    /// Configures the User-Agent string provided in this request. If `None` or
    /// if the string is empty, the default will be used.
    pub fn with_useragent(self, useragent: Option<String>) -> (r: SearchRequest)
        ensures
            r@ == (SearchView { useragent: effective_useragent(text_of(useragent)), ..self@ }),
    {
        proof {
            use_type_invariant(&self);
        }
        let mut request = self;
        request.useragent = useragent_or_default(useragent);
        request
    }

    /// Configures which categories of results will be returned. Whatever the
    /// filters are, the choice is stored as given: a history search without an
    /// identifier or task number is for the service to refuse.
    pub fn with_categories(self, summary: bool, catalog: bool, history: bool) -> (r: SearchRequest)
        ensures
            r@ == (SearchView { summary, catalog, history, ..self@ }),
    {
        proof {
            use_type_invariant(&self);
        }
        let mut request = self;
        request.summary = summary;
        request.catalog = catalog;
        request.history = history;
        request
    }

    /// Sets the maximum number of tasks returned by each call. Any limit above
    /// 500 is stored as 500.
    pub fn with_limit(self, limit: usize) -> (r: SearchRequest)
        ensures
            r@ == (SearchView {
                limit: if limit <= LIMIT_CEILING {
                    limit as nat
                } else {
                    LIMIT_CEILING as nat
                },
                ..self@
            }),
            r@.limit <= LIMIT_CEILING,
    {
        proof {
            use_type_invariant(&self);
        }
        let mut request = self;
        request.limit = if limit <= LIMIT_CEILING {
            limit
        } else {
            LIMIT_CEILING
        };
        request
    }

    /// Adds a filter to the request. Each kind of filter can be held once: a
    /// second filter of a kind replaces the first.
    pub fn with_filter(self, filter: Filter) -> (r: SearchRequest)
        ensures
            r@ == (SearchView {
                filters: put(self@.filters, filter.wire_key(), filter.wire_value()),
                ..self@
            }),
            lookup(r@.filters, filter.wire_key()) == Some(filter.wire_value()),
    {
        proof {
            crate::params::lemma_put_then_lookup(
                self@.filters,
                filter.wire_key(),
                filter.wire_value(),
            );
        }
        let pair = filter.into_pair();
        proof {
            use_type_invariant(&self);
        }
        let mut request = self;
        request.filters = request.filters.insert(pair.0, pair.1);
        request
    }

    /// The credentials of the request.
    pub fn credentials(&self) -> (r: &Option<Credentials>)
        ensures
            keys_of(*r) == self@.credentials,
    {
        &self.credentials
    }

    /// The `User-Agent` of the request.
    pub fn useragent(&self) -> (r: &str)
        ensures
            r@ == self@.useragent,
    {
        self.useragent.as_str()
    }

    /// The filters of the request, as query pairs.
    pub fn filters(&self) -> (r: &Params)
        ensures
            r@ == self@.filters,
            distinct_keys(r@),
    {
        let n = self.filters.len();
        &self.filters
    }

    /// The three category toggles: summary, catalog, history.
    pub fn categories(&self) -> (r: (bool, bool, bool))
        ensures
            r == (self@.summary, self@.catalog, self@.history),
    {
        (self.summary, self.catalog, self.history)
    }

    /// The limit of the request, which never exceeds 500.
    pub fn limit(&self) -> (r: usize)
        ensures
            r == self@.limit,
            r <= LIMIT_CEILING,
    {
        proof {
            use_type_invariant(self);
        }
        self.limit
    }

    /// Prepares one call of the search: a GET on the endpoint with the filters,
    /// the category toggles, the limit and the cursor as query parameters, and
    /// with the `User-Agent` and authorization lines. The request itself is
    /// left as it was, so that a sequence of calls sends the same parameters
    /// and differs in the cursor alone. Sending is left to the caller.
    pub fn prepare(&self, cursor: Option<String>) -> (r: ureq::Request)
        ensures
            request_method(r) == "GET"@,
            request_url(r) == search_url(self@, text_of(cursor)),
            request_headers(r) == search_lines(self@),
    {
        let mut request = start("GET", "https://archive.org/services/tasks.php");
        request = set_line(request, "user-agent", self.useragent.as_str());
        let n = self.filters.len();
        let mut i: usize = 0;
        while i < n
            invariant
                i <= n,
                n == self.filters@.len(),
                request_method(request) == "GET"@,
                request_url(request) == with_pairs(endpoint(), self.filters@, i as int),
                request_headers(request) == headers_after_set(
                    Seq::empty(),
                    "user-agent"@,
                    self.useragent@,
                ),
            decreases n - i,
        {
            request = add_query(request, self.filters.key_at(i), self.filters.value_at(i));
            i += 1;
        }
        request = add_query(request, "summary", render_flag(self.summary).as_str());
        request = add_query(request, "catalog", render_flag(self.catalog).as_str());
        request = add_query(request, "history", render_flag(self.history).as_str());
        request = add_query(request, "limit", render_usize(self.limit).as_str());
        if let Some(token) = cursor {
            request = add_query(request, "cursor", token.as_str());
        }
        authorize(request, &self.credentials)
    }
}

/// Two calls prepared from one request differ in the cursor alone: the URL of
/// a call with a cursor is the URL of the first call with the cursor appended.
pub proof fn lemma_cursor_is_the_only_difference(request: SearchView, token: Seq<char>)
    ensures
        search_url(request, Some(token)) == url_with_query(
            search_url(request, None),
            "cursor"@,
            token,
        ),
{
}

/// Two filters of one kind, added one after the other, leave what the second
/// alone would have left: the first filter's value is gone.
pub proof fn lemma_last_filter_wins(filters: Pairs, first: Filter, second: Filter)
    requires
        first.same_kind(&second),
    ensures
        put(
            put(filters, first.wire_key(), first.wire_value()),
            second.wire_key(),
            second.wire_value(),
        ) == put(filters, second.wire_key(), second.wire_value()),
        lookup(
            put(
                put(filters, first.wire_key(), first.wire_value()),
                second.wire_key(),
                second.wire_value(),
            ),
            second.wire_key(),
        ) == Some(second.wire_value()),
{
    lemma_put_twice(filters, second.wire_key(), first.wire_value(), second.wire_value());
}

/// Why a response body could not be decoded.
#[derive(Debug)]
pub enum ParseFailure {
    /// The body is not JSON.
    Syntax(serde_json::Error),
    /// The body is JSON, but not an object that carries a boolean `success`.
    Envelope,
}

/// Total counts of active tasks matched in a search, by status.
#[derive(Debug, Clone, Copy, PartialEq)]
pub struct Summary {
    pub queued: usize,
    pub running: usize,
    pub error: usize,
    pub paused: usize,
}

/// Contains the data of a single active task.
#[derive(Debug, Clone, PartialEq)]
pub struct CatalogEntry {
    pub args: Params,
    pub cmd: String,
    pub identifier: String,
    pub priority: isize,
    pub server: Option<String>,
    pub status: Status,
    pub submitter: String,
    pub submit_time: String,
    pub task_id: usize,
}

/// A catalog entry as plain values.
pub struct CatalogEntryView {
    pub args: Pairs,
    pub cmd: Seq<char>,
    pub identifier: Seq<char>,
    pub priority: isize,
    pub server: Option<Seq<char>>,
    pub status: Status,
    pub submitter: Seq<char>,
    pub submit_time: Seq<char>,
    pub task_id: usize,
}

impl View for CatalogEntry {
    type V = CatalogEntryView;

    open spec fn view(&self) -> CatalogEntryView {
        CatalogEntryView {
            args: self.args@,
            cmd: self.cmd@,
            identifier: self.identifier@,
            priority: self.priority,
            server: text_of(self.server),
            status: self.status,
            submitter: self.submitter@,
            submit_time: self.submit_time@,
            task_id: self.task_id,
        }
    }
}

/// Contains the data of a single completed task.
#[derive(Debug, Clone, PartialEq)]
pub struct HistoryEntry {
    pub args: Params,
    pub cmd: String,
    /// Unknown use.
    pub finished: usize,
    pub identifier: String,
    pub priority: isize,
    pub server: String,
    pub submitter: String,
    pub submit_time: String,
    pub task_id: usize,
}

/// A history entry as plain values.
pub struct HistoryEntryView {
    pub args: Pairs,
    pub cmd: Seq<char>,
    pub finished: usize,
    pub identifier: Seq<char>,
    pub priority: isize,
    pub server: Seq<char>,
    pub submitter: Seq<char>,
    pub submit_time: Seq<char>,
    pub task_id: usize,
}

impl View for HistoryEntry {
    type V = HistoryEntryView;

    open spec fn view(&self) -> HistoryEntryView {
        HistoryEntryView {
            args: self.args@,
            cmd: self.cmd@,
            finished: self.finished,
            identifier: self.identifier@,
            priority: self.priority,
            server: self.server@,
            submitter: self.submitter@,
            submit_time: self.submit_time@,
            task_id: self.task_id,
        }
    }
}

/// Response data returned from a successful task search.
#[derive(Debug, Clone, PartialEq)]
pub struct SearchResponse {
    pub success: bool,
    /// List of active tasks (queued, running, errored, or paused).
    pub catalog: Vec<CatalogEntry>,
    /// List of completed tasks.
    pub history: Vec<HistoryEntry>,
    /// Total counts of catalog tasks. Completed tasks are not counted.
    pub summary: Option<Summary>,
    /// Pagination token for the next call. If `None`, there is no more data
    /// to retrieve.
    pub cursor: Option<String>,
}

/// A response as plain values.
pub struct ResponseView {
    pub success: bool,
    pub catalog: Seq<CatalogEntryView>,
    pub history: Seq<HistoryEntryView>,
    pub summary: Option<Summary>,
    pub cursor: Option<Seq<char>>,
}

impl View for SearchResponse {
    type V = ResponseView;

    open spec fn view(&self) -> ResponseView {
        ResponseView {
            success: self.success,
            catalog: Seq::new(self.catalog@.len(), |i: int| self.catalog@[i]@),
            history: Seq::new(self.history@.len(), |i: int| self.history@[i]@),
            summary: self.summary,
            cursor: text_of(self.cursor),
        }
    }
}

impl SearchResponse {
    /// The page without any task.
    pub fn bare(success: bool) -> (r: SearchResponse)
        ensures
            r@ == bare_page(success),
    {
        let r = SearchResponse {
            success,
            catalog: Vec::new(),
            history: Vec::new(),
            summary: None,
            cursor: None,
        };
        assert(r@.catalog =~= Seq::empty());
        assert(r@.history =~= Seq::empty());
        r
    }

    /// Decodes the envelope of a response. The envelope must be an object with
    /// a boolean `success`; where it has no `value`, or one that cannot be
    /// read as the catalog, history, summary and cursor of a page, the page is
    /// the bare one, and decoding still succeeds.
    pub fn from_value(envelope: &serde_json::Value) -> (r: Result<SearchResponse, ParseFailure>)
        ensures
            r is Ok <==> envelope_page(shape(*envelope)) is Some,
            r is Ok ==> r->Ok_0@ == envelope_page(shape(*envelope))->Some_0,
            r is Err ==> r->Err_0 is Envelope,
    {
        let success = match bool_member(envelope, "success") {
            Some(success) => success,
            None => { return Err(ParseFailure::Envelope); },
        };
        let inner = match member(envelope, "value") {
            Some(inner) => inner,
            None => { return Ok(SearchResponse::bare(success)); },
        };
        match inner_page_of(inner, success) {
            Some(page) => Ok(page),
            None => Ok(SearchResponse::bare(success)),
        }
    }

    /// Decodes the body of a response: parses it as JSON and decodes the
    /// envelope. A body that is not JSON, or not an envelope, is a
    /// `TaskError::Parse`; nothing else fails.
    pub fn from_body(body: &str) -> (r: Result<SearchResponse, TaskError>)
        ensures
            parsed(body@) is None ==> r is Err && r->Err_0 is Parse && r->Err_0->Parse_0 is Syntax,
            parsed(body@) is Some ==> (r is Ok <==> envelope_page(parsed(body@)->Some_0) is Some),
            parsed(body@) is Some && r is Ok ==> r->Ok_0@ == envelope_page(
                parsed(body@)->Some_0,
            )->Some_0,
            parsed(body@) is Some && r is Err ==> r->Err_0 is Parse && r->Err_0->Parse_0
                is Envelope,
    {
        match parse_value(body) {
            Ok(envelope) => match SearchResponse::from_value(&envelope) {
                Ok(page) => Ok(page),
                Err(failure) => Err(TaskError::Parse(failure)),
            },
            Err(error) => Err(TaskError::Parse(ParseFailure::Syntax(error))),
        }
    }
}

/// Where a sequence of calls stands: ready for the next call, with the cursor
/// to send, or exhausted.
#[derive(Debug, Clone, PartialEq)]
pub enum Pager {
    /// The next call is due. It carries the cursor of the page before it, and
    /// none where it is the first.
    Ready { cursor: Option<String> },
    /// The last page carried no cursor: no call is due.
    Exhausted,
}

/// The state after a page with the given cursor has come back.
pub open spec fn after_page(cursor: Option<Seq<char>>) -> Option<Option<Seq<char>>> {
    match cursor {
        Some(token) => Some(Some(token)),
        None => None,
    }
}

/// The number of calls that a caller makes who stops at the first page
/// without a cursor, when the pages carry `cursors` in turn: one for each page
/// up to and with that one.
pub open spec fn calls_made(cursors: Seq<Option<Seq<char>>>) -> nat
    decreases cursors.len(),
{
    if cursors.len() == 0 {
        0
    } else if cursors[0] is None {
        1
    } else {
        1 + calls_made(cursors.drop_first())
    }
}

impl Pager {
    /// The cursor of the call that is due: `Some` of the cursor to send (or of
    /// none, for the first call) while ready, `None` once exhausted.
    pub open spec fn due(&self) -> Option<Option<Seq<char>>> {
        match self {
            Pager::Ready { cursor } => Some(text_of(*cursor)),
            Pager::Exhausted => None,
        }
    }

    /// The state before the first call.
    pub fn start() -> (r: Pager)
        ensures
            r.due() == Some(None::<Seq<char>>),
    {
        Pager::Ready { cursor: None }
    }

    /// Whether a call is due.
    pub fn is_ready(&self) -> (r: bool)
        ensures
            r == self.due() is Some,
    {
        match self {
            Pager::Ready { .. } => true,
            Pager::Exhausted => false,
        }
    }

    /// The state after the page `page` has come back: ready with its cursor,
    /// or exhausted where it has none. An exhausted sequence stays so.
    pub fn advance(self, page: &SearchResponse) -> (r: Pager)
        ensures
            self.due() is None ==> r.due() is None,
            self.due() is Some ==> r.due() == after_page(page@.cursor),
    {
        match self {
            Pager::Ready { .. } => match &page.cursor {
                Some(token) => Pager::Ready { cursor: Some(token.clone()) },
                None => Pager::Exhausted,
            },
            Pager::Exhausted => Pager::Exhausted,
        }
    }
}

/// The cursors that a row of pages carries.
pub open spec fn cursors_of(pages: Seq<SearchResponse>) -> Seq<Option<Seq<char>>> {
    Seq::new(pages.len(), |i: int| text_of(pages[i].cursor))
}

/// A caller who stops at the first page without a cursor makes one call for
/// each page up to and with that page, and one for each page where every page
/// has a cursor.
pub proof fn lemma_calls_made(cursors: Seq<Option<Seq<char>>>, stop: int)
    requires
        0 <= stop <= cursors.len(),
        forall|i: int| 0 <= i < stop ==> cursors[i] is Some,
        stop == cursors.len() || cursors[stop] is None,
    ensures
        calls_made(cursors) == if stop < cursors.len() {
            stop + 1
        } else {
            stop
        },
    decreases cursors.len(),
{
    if stop > 0 {
        let rest = cursors.drop_first();
        assert forall|i: int| 0 <= i < stop - 1 implies rest[i] is Some by {
            assert(rest[i] == cursors[i + 1]);
        }
        lemma_calls_made(rest, stop - 1);
    }
}

/// When only the last page has no cursor, the caller makes as many calls as
/// there are pages.
pub proof fn lemma_calls_until_cursor_absent(cursors: Seq<Option<Seq<char>>>)
    requires
        cursors.len() > 0,
        cursors.last() is None,
        forall|i: int| 0 <= i < cursors.len() - 1 ==> cursors[i] is Some,
    ensures
        calls_made(cursors) == cursors.len(),
{
    lemma_calls_made(cursors, cursors.len() - 1);
}

/// Runs a sequence of calls against pages that are already there, page `i`
/// answering call `i`, and returns the number of calls made: the caller stops
/// when a page has no cursor, or when the pages run out.
pub fn calls_for(pages: &Vec<SearchResponse>) -> (calls: usize)
    ensures
        calls == calls_made(cursors_of(pages@)),
{
    let ghost cursors = cursors_of(pages@);
    let mut pager = Pager::start();
    let mut calls: usize = 0;
    while calls < pages.len() && pager.is_ready()
        invariant
            calls <= pages.len(),
            cursors == cursors_of(pages@),
            pager.due() is Some ==> forall|i: int| 0 <= i < calls ==> cursors[i] is Some,
            pager.due() is None ==> calls > 0 && cursors[calls - 1] is None && forall|i: int|
                0 <= i < calls - 1 ==> cursors[i] is Some,
        decreases pages.len() - calls,
    {
        pager = pager.advance(&pages[calls]);
        calls += 1;
    }
    proof {
        if pager.due() is None {
            lemma_calls_made(cursors, calls - 1);
        } else {
            lemma_calls_made(cursors, calls as int);
        }
    }
    calls
}

} // verus!
