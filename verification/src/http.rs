//! What this crate takes on trust about `ureq`: the request builder, the
//! response and the error, none of which Verus reads.
//!
//! A request is modelled by its method, its URL and the header lines set on it,
//! oldest first.

use vstd::prelude::*;

verus! {

#[verifier::external_type_specification]
#[verifier::external_body]
pub struct ExRequest(ureq::Request);

#[verifier::external_type_specification]
#[verifier::external_body]
pub struct ExResponse(ureq::Response);

#[verifier::external_type_specification]
#[verifier::external_body]
pub struct ExError(ureq::Error);

/// The header lines of a request, oldest first, each as the name and the value
/// that were handed to `ureq::Request::set`.
pub uninterp spec fn request_headers(r: ureq::Request) -> Seq<(Seq<char>, Seq<char>)>;

/// The URL of a request, as `ureq::Request::url` returns it.
pub uninterp spec fn request_url(r: ureq::Request) -> Seq<char>;

/// The method of a request, as `ureq::Request::method` returns it.
pub uninterp spec fn request_method(r: ureq::Request) -> Seq<char>;

/// The URL that `ureq::Request::query` leaves in a request whose URL was `url`:
/// the pair appended to the query string in encoded form, or `url` itself where
/// it cannot be parsed.
pub uninterp spec fn url_with_query(url: Seq<char>, param: Seq<char>, value: Seq<char>) -> Seq<
    char,
>;

/// The status code that an error carries: that of `ureq::Error::Status`, and
/// none for `ureq::Error::Transport`.
pub uninterp spec fn error_status(e: ureq::Error) -> Option<u16>;

/// The response that an error carries: that of `ureq::Error::Status`, and
/// none for `ureq::Error::Transport`.
pub uninterp spec fn error_response(e: ureq::Error) -> Option<ureq::Response>;

/// Header names that begin with `x-` or `X-` may occur several times in one
/// request.
pub open spec fn repeatable_name(name: Seq<char>) -> bool {
    name.len() >= 2 && (name[0] == 'x' || name[0] == 'X') && name[1] == '-'
}

/// The test that a header line carries another name than `name`.
pub open spec fn other_name(name: Seq<char>) -> spec_fn((Seq<char>, Seq<char>)) -> bool {
    |line: (Seq<char>, Seq<char>)| line.0 != name
}

/// The lines of `lines` whose name is not exactly `name`, in their order.
pub open spec fn lines_without(lines: Seq<(Seq<char>, Seq<char>)>, name: Seq<char>) -> Seq<
    (Seq<char>, Seq<char>),
> {
    lines.filter(other_name(name))
}

/// The header lines after one more is set: a repeatable name is appended, any
/// other name first loses the lines that carry exactly that name.
pub open spec fn headers_after_set(
    lines: Seq<(Seq<char>, Seq<char>)>,
    name: Seq<char>,
    value: Seq<char>,
) -> Seq<(Seq<char>, Seq<char>)> {
    if repeatable_name(name) {
        lines.push((name, value))
    } else {
        lines_without(lines, name).push((name, value))
    }
}

/// `ureq::request`: a fresh request for `url` with the given method, and with
/// no header set.
#[verifier::external_body]
pub(crate) fn start(method: &str, url: &str) -> (r: ureq::Request)
    ensures
        request_method(r) == method@,
        request_url(r) == url@,
        request_headers(r) == Seq::<(Seq<char>, Seq<char>)>::empty(),
{
    ureq::request(method, url)
}

/// `ureq::Request::set`: adds one header line as `headers_after_set` says, and
/// leaves method and URL alone.
#[verifier::external_body]
pub(crate) fn set_line(request: ureq::Request, name: &str, value: &str) -> (r: ureq::Request)
    ensures
        request_headers(r) == headers_after_set(request_headers(request), name@, value@),
        request_url(r) == request_url(request),
        request_method(r) == request_method(request),
{
    request.set(name, value)
}

/// `ureq::Request::query`: appends one pair to the URL's query string, and
/// leaves method and header lines alone. Its callers start from the fixed
/// addresses of the task services, which carry no fragment.
#[verifier::external_body]
pub(crate) fn add_query(request: ureq::Request, param: &str, value: &str) -> (r: ureq::Request)
    ensures
        request_url(r) == url_with_query(request_url(request), param@, value@),
        request_headers(r) == request_headers(request),
        request_method(r) == request_method(request),
{
    request.query(param, value)
}

/// Tells the two variants of `ureq::Error` apart and hands out the status code.
#[verifier::external_body]
pub(crate) fn status_of(error: &ureq::Error) -> (code: Option<u16>)
    ensures
        code == error_status(*error),
{
    match error {
        ureq::Error::Status(code, _) => Some(*code),
        ureq::Error::Transport(_) => None,
    }
}

/// Takes the response out of a status error, as it is; a transport error
/// comes back as it was.
#[verifier::external_body]
pub(crate) fn response_of(error: ureq::Error) -> (r: Result<ureq::Response, ureq::Error>)
    ensures
        r is Ok <==> error_status(error) is Some,
        r is Ok ==> Some(r->Ok_0) == error_response(error),
        r is Err ==> r->Err_0 == error,
{
    match error {
        ureq::Error::Status(_, response) => Ok(response),
        ureq::Error::Transport(transport) => Err(ureq::Error::Transport(transport)),
    }
}

} // verus!
