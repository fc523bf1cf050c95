//! The request-level directives that the service understands, and how each is
//! written as one header line.

use crate::http::{
    headers_after_set, lines_without, other_name, repeatable_name, request_headers, request_method,
    request_url, set_line,
};
use crate::text::{decimal, flag_text, render_flag, render_usize};
use vstd::prelude::*;
use vstd::string::*;

verus! {

/// One request-level directive. Each value stands for exactly one header line.
#[derive(Debug, PartialEq)]
pub enum Header {
    /// Normally added automatically when sending bytes.
    ContentLength(usize),
    Authorization { access: String, secret: String },
    ContentType(String),
    ContentMd5(String),
    XAutoMakeBucket(bool),
    XCascadeDelete(bool),
    XIgnorePreexistingBucket(bool),
    XKeepOldVersion(bool),
    XMeta { name: String, value: String },
    XQueueDerive(bool),
    XSizeHint(usize),
    Custom(String, String),
}

impl Clone for Header {
    fn clone(&self) -> (r: Header)
        ensures
            r == *self,
    {
        match self {
            Header::ContentLength(n) => Header::ContentLength(*n),
            Header::Authorization { access, secret } => Header::Authorization {
                access: access.clone(),
                secret: secret.clone(),
            },
            Header::ContentType(v) => Header::ContentType(v.clone()),
            Header::ContentMd5(v) => Header::ContentMd5(v.clone()),
            Header::XAutoMakeBucket(b) => Header::XAutoMakeBucket(*b),
            Header::XCascadeDelete(b) => Header::XCascadeDelete(*b),
            Header::XIgnorePreexistingBucket(b) => Header::XIgnorePreexistingBucket(*b),
            Header::XKeepOldVersion(b) => Header::XKeepOldVersion(*b),
            Header::XMeta { name, value } => Header::XMeta {
                name: name.clone(),
                value: value.clone(),
            },
            Header::XQueueDerive(b) => Header::XQueueDerive(*b),
            Header::XSizeHint(n) => Header::XSizeHint(*n),
            Header::Custom(key, v) => Header::Custom(key.clone(), v.clone()),
        }
    }
}

impl Header {
    /// The name of the header line.
    pub open spec fn wire_name(&self) -> Seq<char> {
        match self {
            Header::ContentLength(_) => "content-length"@,
            Header::Authorization { .. } => "authorization"@,
            Header::ContentType(_) => "content-type"@,
            Header::ContentMd5(_) => "content-md5"@,
            Header::XAutoMakeBucket(_) => "x-amz-auto-make-bucket"@,
            Header::XCascadeDelete(_) => "x-archive-cascade-delete"@,
            Header::XIgnorePreexistingBucket(_) => "x-archive-ignore-preexisting-bucket"@,
            Header::XKeepOldVersion(_) => "x-archive-keep-old-version"@,
            Header::XMeta { name, .. } => "x-archive-meta-"@ + name@,
            Header::XQueueDerive(_) => "x-archive-queue-derive"@,
            Header::XSizeHint(_) => "x-archive-size-hint"@,
            Header::Custom(key, _) => key@,
        }
    }

    /// The value of the header line.
    pub open spec fn wire_value(&self) -> Seq<char> {
        match self {
            Header::ContentLength(n) => decimal(*n as nat),
            Header::Authorization { access, secret } => "LOW "@ + access@ + ":"@ + secret@,
            Header::ContentType(v) => v@,
            Header::ContentMd5(v) => v@,
            Header::XAutoMakeBucket(b) => flag_text(*b),
            Header::XCascadeDelete(b) => flag_text(*b),
            Header::XIgnorePreexistingBucket(b) => flag_text(*b),
            Header::XKeepOldVersion(b) => flag_text(*b),
            Header::XMeta { value, .. } => value@,
            Header::XQueueDerive(b) => flag_text(*b),
            Header::XSizeHint(n) => decimal(*n as nat),
            Header::Custom(_, v) => v@,
        }
    }

    /// Whether the directive is one of the boolean service flags.
    pub open spec fn is_flag(&self) -> bool {
        self is XAutoMakeBucket || self is XCascadeDelete || self is XIgnorePreexistingBucket
            || self is XKeepOldVersion || self is XQueueDerive
    }

    /// The setting of a boolean service flag.
    pub open spec fn flag(&self) -> bool {
        match self {
            Header::XAutoMakeBucket(b) => *b,
            Header::XCascadeDelete(b) => *b,
            Header::XIgnorePreexistingBucket(b) => *b,
            Header::XKeepOldVersion(b) => *b,
            Header::XQueueDerive(b) => *b,
            _ => false,
        }
    }

    /// Whether two directives are of the same kind.
    pub open spec fn same_kind(&self, other: &Header) -> bool {
        match (self, other) {
            (Header::ContentLength(_), Header::ContentLength(_)) => true,
            (Header::Authorization { .. }, Header::Authorization { .. }) => true,
            (Header::ContentType(_), Header::ContentType(_)) => true,
            (Header::ContentMd5(_), Header::ContentMd5(_)) => true,
            (Header::XAutoMakeBucket(_), Header::XAutoMakeBucket(_)) => true,
            (Header::XCascadeDelete(_), Header::XCascadeDelete(_)) => true,
            (Header::XIgnorePreexistingBucket(_), Header::XIgnorePreexistingBucket(_)) => true,
            (Header::XKeepOldVersion(_), Header::XKeepOldVersion(_)) => true,
            (Header::XMeta { .. }, Header::XMeta { .. }) => true,
            (Header::XQueueDerive(_), Header::XQueueDerive(_)) => true,
            (Header::XSizeHint(_), Header::XSizeHint(_)) => true,
            (Header::Custom(_, _), Header::Custom(_, _)) => true,
            _ => false,
        }
    }

    /// Renders the directive as the name and the value of its header line.
    pub fn render(&self) -> (line: (String, String))
        ensures
            line.0@ == self.wire_name(),
            line.1@ == self.wire_value(),
    {
        match self {
            Header::ContentLength(n) => (String::from_str("content-length"), render_usize(*n)),
            Header::Authorization { access, secret } => {
                let value = String::from_str("LOW ").concat(access.as_str()).concat(":").concat(
                    secret.as_str(),
                );
                (String::from_str("authorization"), value)
            },
            Header::ContentType(v) => (String::from_str("content-type"), v.clone()),
            Header::ContentMd5(v) => (String::from_str("content-md5"), v.clone()),
            Header::XAutoMakeBucket(b) => (
                String::from_str("x-amz-auto-make-bucket"),
                render_flag(*b),
            ),
            Header::XCascadeDelete(b) => (
                String::from_str("x-archive-cascade-delete"),
                render_flag(*b),
            ),
            Header::XIgnorePreexistingBucket(b) => (
                String::from_str("x-archive-ignore-preexisting-bucket"),
                render_flag(*b),
            ),
            Header::XKeepOldVersion(b) => (
                String::from_str("x-archive-keep-old-version"),
                render_flag(*b),
            ),
            Header::XMeta { name, value } => (
                String::from_str("x-archive-meta-").concat(name.as_str()),
                value.clone(),
            ),
            Header::XQueueDerive(b) => (
                String::from_str("x-archive-queue-derive"),
                render_flag(*b),
            ),
            Header::XSizeHint(n) => (String::from_str("x-archive-size-hint"), render_usize(*n)),
            Header::Custom(key, v) => (key.clone(), v.clone()),
        }
    }
}

/// Rendering is a function of the directive: two renderings of one value that
/// meet the contract of `render` are the same line.
pub proof fn lemma_render_deterministic(
    header: Header,
    first: (Seq<char>, Seq<char>),
    second: (Seq<char>, Seq<char>),
)
    requires
        first == (header.wire_name(), header.wire_value()),
        second == (header.wire_name(), header.wire_value()),
    ensures
        first == second,
{
}

proof fn lemma_reveal_names()
    ensures
        "content-length"@.len() == 14 && "content-length"@[8] == 'l',
        "authorization"@.len() == 13 && "authorization"@[0] == 'a',
        "content-type"@.len() == 12 && "content-type"@[8] == 't',
        "content-md5"@.len() == 11 && "content-md5"@[8] == 'm',
        "x-amz-auto-make-bucket"@.len() == 22 && "x-amz-auto-make-bucket"@[3] == 'm',
        "x-archive-cascade-delete"@.len() == 24 && "x-archive-cascade-delete"@[3] == 'r'
            && "x-archive-cascade-delete"@[10] == 'c',
        "x-archive-ignore-preexisting-bucket"@.len() == 35
            && "x-archive-ignore-preexisting-bucket"@[3] == 'r'
            && "x-archive-ignore-preexisting-bucket"@[10] == 'i',
        "x-archive-keep-old-version"@.len() == 26 && "x-archive-keep-old-version"@[3] == 'r'
            && "x-archive-keep-old-version"@[10] == 'k',
        "x-archive-queue-derive"@.len() == 22 && "x-archive-queue-derive"@[3] == 'r'
            && "x-archive-queue-derive"@[10] == 'q',
        "x-archive-size-hint"@.len() == 19 && "x-archive-size-hint"@[3] == 'r'
            && "x-archive-size-hint"@[10] == 's',
        "x-archive-meta-"@.len() == 15 && "x-archive-meta-"@[0] == 'x' && "x-archive-meta-"@[3]
            == 'r' && "x-archive-meta-"@[10] == 'm',
        "content-length"@[0] == 'c',
        "content-type"@[0] == 'c',
        "content-md5"@[0] == 'c',
{
    reveal_strlit("content-length");
    reveal_strlit("authorization");
    reveal_strlit("content-type");
    reveal_strlit("content-md5");
    reveal_strlit("x-amz-auto-make-bucket");
    reveal_strlit("x-archive-cascade-delete");
    reveal_strlit("x-archive-ignore-preexisting-bucket");
    reveal_strlit("x-archive-keep-old-version");
    reveal_strlit("x-archive-queue-derive");
    reveal_strlit("x-archive-size-hint");
    reveal_strlit("x-archive-meta-");
}

/// Two directives of different kinds are written under different names,
/// unless one of them is a `Custom` line, whose name is the caller's.
pub proof fn lemma_kinds_have_their_own_names(first: Header, second: Header)
    requires
        !first.same_kind(&second),
        !(first is Custom),
        !(second is Custom),
    ensures
        first.wire_name() != second.wire_name(),
{
    lemma_reveal_names();
    let a = first.wire_name();
    let b = second.wire_name();
    if first is XMeta {
        assert(a.len() >= 15 && a[0] == 'x' && a[3] == 'r' && a[10] == 'm');
    }
    if second is XMeta {
        assert(b.len() >= 15 && b[0] == 'x' && b[3] == 'r' && b[10] == 'm');
    }
    if a == b {
        assert(a.len() == b.len());
        assert(a[0] == b[0]);
        assert(a[3] == b[3]);
        assert(a[8] == b[8]);
        assert(a[10] == b[10]);
    }
}

/// A boolean service flag is written as `"1"` when set and as `"0"` when not.
pub proof fn lemma_flag_value(header: Header)
    requires
        header.is_flag(),
    ensures
        header.flag() ==> header.wire_value() == "1"@,
        !header.flag() ==> header.wire_value() == "0"@,
{
    reveal_strlit("1");
    reveal_strlit("0");
    assert("1"@ =~= seq!['1']);
    assert("0"@ =~= seq!['0']);
}

/// Setting a header line keeps every line of another name, in the order in
/// which they stood, and puts the new line last.
pub proof fn lemma_set_keeps_other_lines(
    lines: Seq<(Seq<char>, Seq<char>)>,
    name: Seq<char>,
    value: Seq<char>,
)
    ensures
        lines_without(headers_after_set(lines, name, value).drop_last(), name) == lines_without(
            lines,
            name,
        ),
        headers_after_set(lines, name, value).last() == (name, value),
{
    let after = headers_after_set(lines, name, value);
    if repeatable_name(name) {
        assert(after.drop_last() =~= lines);
    } else {
        assert(after.drop_last() =~= lines_without(lines, name));
        lemma_without_twice(lines, name);
    }
}

proof fn lemma_filter_all(
    lines: Seq<(Seq<char>, Seq<char>)>,
    keep: spec_fn((Seq<char>, Seq<char>)) -> bool,
)
    requires
        forall|i: int| 0 <= i < lines.len() ==> keep(lines[i]),
    ensures
        lines.filter(keep) == lines,
    decreases lines.len(),
{
    reveal(Seq::filter);
    if lines.len() > 0 {
        lemma_filter_all(lines.drop_last(), keep);
        assert(lines.drop_last().push(lines.last()) =~= lines);
    }
}

proof fn lemma_without_twice(lines: Seq<(Seq<char>, Seq<char>)>, name: Seq<char>)
    ensures
        lines_without(lines_without(lines, name), name) == lines_without(lines, name),
{
    let kept = lines_without(lines, name);
    assert forall|i: int| 0 <= i < kept.len() implies other_name(name)(kept[i]) by {
        lines.lemma_filter_pred(other_name(name), i);
    }
    lemma_filter_all(kept, other_name(name));
}

/// Requests to which a `Header` can be attached.
pub trait RequestHeaderExt: Sized {
    /// Sets the header line that `header` stands for.
    fn set_header(self, header: Header) -> Self;
}

impl RequestHeaderExt for ureq::Request {
    fn set_header(self, header: Header) -> (r: ureq::Request)
        ensures
            request_headers(r) == headers_after_set(
                request_headers(self),
                header.wire_name(),
                header.wire_value(),
            ),
            request_url(r) == request_url(self),
            request_method(r) == request_method(self),
    {
        let line = header.render();
        set_line(self, line.0.as_str(), line.1.as_str())
    }
}

} // verus!
