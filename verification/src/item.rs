//! Access and creation of archive items.
//!
//! Each archive is an item, identified by a unique string. An [`Item`] stands
//! for one of them and prepares the requests that act on it: uploading a
//! file, listing and downloading files, and reading metadata.

use crate::config::{effective_useragent, text_of, useragent_or_default, DEFAULT_USER_AGENT};
use crate::credentials::{authorize, authorized, copy_of, keys_of, Credentials};
use crate::headers::{Header, RequestHeaderExt};
use crate::http::{
    error_response, error_status, headers_after_set, request_headers, request_method,
    request_url, response_of, set_line, start, status_of,
};
use crate::identifier::{valid_identifier, validate_identifier};
use crate::text::{decimal, flag_text, parse_usize, parsed_usize, render_usize};
use vstd::prelude::*;
use vstd::string::*;

verus! {

/// Why an operation on an item failed.
#[derive(Debug)]
pub enum ItemError {
    /// An error while moving bytes to or from the caller.
    Io(std::io::Error),
    /// The request could not be carried out, or the service answered with a
    /// status other than 403.
    Ureq(ureq::Error),
    /// The file list could not be read from the response.
    XmlParseFailed(serde_xml_rs::Error),
    /// The service answered 403 Forbidden, usually for want of valid
    /// credentials.
    Forbidden(ureq::Response),
    /// The identifier is not a valid one.
    InvalidIdentifier(String),
}

impl ItemError {
    /// Classifies the outcome of a call, for every operation alike: an answer
    /// is handed on as it came, a failure is classified by `from_call`.
    pub fn classify(outcome: Result<ureq::Response, ureq::Error>) -> (r: Result<
        ureq::Response,
        ItemError,
    >)
        ensures
            outcome is Ok ==> r is Ok && r->Ok_0 == outcome->Ok_0,
            outcome is Err ==> r is Err,
            outcome is Err ==> (r->Err_0 is Forbidden <==> error_status(outcome->Err_0) == Some(
                403u16,
            )),
            outcome is Err && r->Err_0 is Forbidden ==> Some(r->Err_0->Forbidden_0)
                == error_response(outcome->Err_0),
            outcome is Err && !(r->Err_0 is Forbidden) ==> r->Err_0 == ItemError::Ureq(outcome->Err_0),
    {
        match outcome {
            Ok(response) => Ok(response),
            Err(error) => Err(ItemError::from_call(error)),
        }
    }

    /// Classifies a failed call: a 403 answer is `Forbidden`, whatever its
    /// body holds, and carries the response as it came; every other failure
    /// is handed on as it came.
    pub fn from_call(error: ureq::Error) -> (r: ItemError)
        ensures
            r is Forbidden <==> error_status(error) == Some(403u16),
            r is Forbidden ==> Some(r->Forbidden_0) == error_response(error),
            !(r is Forbidden) ==> r == ItemError::Ureq(error),
    {
        match status_of(&error) {
            Some(code) => {
                if code == 403 {
                    match response_of(error) {
                        Ok(response) => ItemError::Forbidden(response),
                        Err(other) => ItemError::Ureq(other),
                    }
                } else {
                    ItemError::Ureq(error)
                }
            },
            None => ItemError::Ureq(error),
        }
    }
}

impl From<std::io::Error> for ItemError {
    fn from(value: std::io::Error) -> (r: ItemError) {
        ItemError::Io(value)
    }
}

impl vstd::std_specs::convert::FromSpecImpl<std::io::Error> for ItemError {
    open spec fn obeys_from_spec() -> bool {
        true
    }

    open spec fn from_spec(value: std::io::Error) -> ItemError {
        ItemError::Io(value)
    }
}

impl From<serde_xml_rs::Error> for ItemError {
    fn from(value: serde_xml_rs::Error) -> (r: ItemError) {
        ItemError::XmlParseFailed(value)
    }
}

impl vstd::std_specs::convert::FromSpecImpl<serde_xml_rs::Error> for ItemError {
    open spec fn obeys_from_spec() -> bool {
        true
    }

    open spec fn from_spec(value: serde_xml_rs::Error) -> ItemError {
        ItemError::XmlParseFailed(value)
    }
}

impl From<ureq::Error> for ItemError {
    fn from(value: ureq::Error) -> (r: ItemError)
        ensures
            r is Forbidden <==> error_status(value) == Some(403u16),
            r is Forbidden ==> Some(r->Forbidden_0) == error_response(value),
            !(r is Forbidden) ==> r == ItemError::Ureq(value),
    {
        ItemError::from_call(value)
    }
}

impl vstd::std_specs::convert::FromSpecImpl<ureq::Error> for ItemError {
    open spec fn obeys_from_spec() -> bool {
        false
    }

    open spec fn from_spec(value: ureq::Error) -> ItemError {
        ItemError::Ureq(value)
    }
}

/// One file of an item, as the file list names it.
#[derive(Debug, Clone, PartialEq)]
pub struct FileEntry {
    pub path: String,
    pub last_modified: String,
    pub len: usize,
}

/// The largest response body that is read into memory: 1 GiB.
pub const MAX_BODY_LEN: usize = 1073741824;

/// A response announces a body that is too large when its content length is
/// there, is a number, and is over the limit.
pub open spec fn announced_too_large(content_length: Option<Seq<char>>) -> bool {
    match content_length {
        Some(text) => match parsed_usize(text) {
            Some(n) => n > MAX_BODY_LEN,
            None => false,
        },
        None => false,
    }
}

/// The view of an optional string slice.
pub open spec fn slice_text(choice: Option<&str>) -> Option<Seq<char>> {
    match choice {
        Some(s) => Some(s@),
        None => None,
    }
}

/// Tells whether the `Content-Length` of a response announces a body over
/// the limit. A response without that header, or with one that is no number,
/// passes.
pub fn body_too_large(content_length: Option<&str>) -> (r: bool)
    ensures
        r == announced_too_large(slice_text(content_length)),
{
    match content_length {
        Some(text) => match parse_usize(text) {
            Some(n) => n > MAX_BODY_LEN,
            None => false,
        },
        None => false,
    }
}

/// What an item holds, as plain values.
pub struct ItemView {
    pub identifier: Seq<char>,
    pub credentials: Option<(Seq<char>, Seq<char>)>,
    pub keep_old_versions: bool,
    pub auto_make_bucket: bool,
    pub use_test_collection: bool,
    pub useragent: Seq<char>,
}

/// Represents a particular item on the archive.
#[derive(Debug, PartialEq)]
pub struct Item {
    identifier: String,
    credentials: Option<Credentials>,
    keep_old_versions: bool,
    auto_make_bucket: bool,
    use_test_collection: bool,
    useragent: String,
}

impl View for Item {
    type V = ItemView;

    closed spec fn view(&self) -> ItemView {
        ItemView {
            identifier: self.identifier@,
            credentials: keys_of(self.credentials),
            keep_old_versions: self.keep_old_versions,
            auto_make_bucket: self.auto_make_bucket,
            use_test_collection: self.use_test_collection,
            useragent: self.useragent@,
        }
    }
}

impl Clone for Item {
    fn clone(&self) -> (r: Item)
        ensures
            r@ == self@,
    {
        Item {
            identifier: self.identifier.clone(),
            credentials: copy_of(&self.credentials),
            keep_old_versions: self.keep_old_versions,
            auto_make_bucket: self.auto_make_bucket,
            use_test_collection: self.use_test_collection,
            useragent: self.useragent.clone(),
        }
    }
}

/// `lines` with one metadata line for each of the first `upto` pairs of
/// `meta`, in their order.
pub open spec fn meta_lines(
    lines: Seq<(Seq<char>, Seq<char>)>,
    meta: Seq<(&str, &str)>,
    upto: int,
) -> Seq<(Seq<char>, Seq<char>)>
    decreases upto,
{
    if upto <= 0 {
        lines
    } else {
        headers_after_set(
            meta_lines(lines, meta, upto - 1),
            "x-archive-meta-"@ + meta[upto - 1].0@,
            meta[upto - 1].1@,
        )
    }
}

/// The header lines that every upload carries before its metadata.
pub open spec fn upload_base_lines(item: ItemView, derive: bool, size: nat) -> Seq<
    (Seq<char>, Seq<char>),
> {
    let agent = headers_after_set(Seq::empty(), "user-agent"@, item.useragent);
    let keep = headers_after_set(
        agent,
        "x-archive-keep-old-version"@,
        flag_text(item.keep_old_versions),
    );
    let make = headers_after_set(keep, "x-amz-auto-make-bucket"@, flag_text(item.auto_make_bucket));
    let queue = headers_after_set(make, "x-archive-queue-derive"@, flag_text(derive));
    let hint = headers_after_set(queue, "x-archive-size-hint"@, decimal(size));
    headers_after_set(hint, "content-length"@, decimal(size))
}

/// The header lines of a request that only reads: the `User-Agent`, then the
/// authorization where the item has credentials.
pub open spec fn read_lines(item: ItemView) -> Seq<(Seq<char>, Seq<char>)> {
    authorized(headers_after_set(Seq::empty(), "user-agent"@, item.useragent), item.credentials)
}

impl Item {
    /// What a fresh item for `identifier` holds: no credentials, old versions
    /// not kept, the item made on upload, and the default `User-Agent`.
    pub open spec fn initial(identifier: Seq<char>) -> ItemView {
        ItemView {
            identifier,
            credentials: None,
            keep_old_versions: false,
            auto_make_bucket: true,
            use_test_collection: false,
            useragent: DEFAULT_USER_AGENT@,
        }
    }

    /// Creates a new reference to an item. An identifier that is not valid is
    /// handed back in `ItemError::InvalidIdentifier`.
    pub fn new(ident: &str) -> (r: Result<Item, ItemError>)
        ensures
            valid_identifier(ident@) ==> r is Ok && r->Ok_0@ == Item::initial(ident@),
            !valid_identifier(ident@) ==> r is Err && r->Err_0 is InvalidIdentifier
                && r->Err_0->InvalidIdentifier_0@ == ident@,
    {
        let identifier = String::from_str(ident);
        if !validate_identifier(ident) {
            return Err(ItemError::InvalidIdentifier(identifier));
        }
        Ok(
            Item {
                identifier,
                credentials: None,
                keep_old_versions: false,
                auto_make_bucket: true,
                use_test_collection: false,
                useragent: String::from_str(DEFAULT_USER_AGENT),
            },
        )
    }

    /// Provide authentication credentials to be used with all queries for this
    /// item.
    pub fn with_credentials(self, credentials: Option<Credentials>) -> (r: Item)
        ensures
            r@ == (ItemView { credentials: keys_of(credentials), ..self@ }),
    {
        let mut item = self;
        item.credentials = credentials;
        item
    }

    /// Configures the User-Agent string provided in all queries for this item.
    /// If `None` or if the string is empty, the default will be used.
    pub fn with_useragent(self, useragent: Option<String>) -> (r: Item)
        ensures
            r@ == (ItemView { useragent: effective_useragent(text_of(useragent)), ..self@ }),
    {
        let mut item = self;
        item.useragent = useragent_or_default(useragent);
        item
    }

    /// Configures whether file creation or deletion should back the old
    /// version of the file up. Disabled by default.
    pub fn with_keep_old_versions(self, keep_old_versions: bool) -> (r: Item)
        ensures
            r@ == (ItemView { keep_old_versions, ..self@ }),
    {
        let mut item = self;
        item.keep_old_versions = keep_old_versions;
        item
    }

    /// Configures whether the item will be created when a file is uploaded to
    /// it and it does not exist yet. Enabled by default.
    pub fn with_auto_make(self, auto_make_bucket: bool) -> (r: Item)
        ensures
            r@ == (ItemView { auto_make_bucket, ..self@ }),
    {
        let mut item = self;
        item.auto_make_bucket = auto_make_bucket;
        item
    }

    /// The identifier of the item.
    pub fn identifier(&self) -> (r: &str)
        ensures
            r@ == self@.identifier,
    {
        self.identifier.as_str()
    }

    /// The credentials of the item.
    pub fn credentials(&self) -> (r: &Option<Credentials>)
        ensures
            keys_of(*r) == self@.credentials,
    {
        &self.credentials
    }

    /// The `User-Agent` of the item.
    pub fn useragent(&self) -> (r: &str)
        ensures
            r@ == self@.useragent,
    {
        self.useragent.as_str()
    }

    /// Whether old versions of files are kept.
    pub fn keep_old_versions(&self) -> (r: bool)
        ensures
            r == self@.keep_old_versions,
    {
        self.keep_old_versions
    }

    /// Whether an upload makes the item where it does not exist.
    pub fn auto_make(&self) -> (r: bool)
        ensures
            r == self@.auto_make_bucket,
    {
        self.auto_make_bucket
    }

    /// Prepares the upload of one file of `size` bytes to `filepath`: a PUT
    /// with the `User-Agent`, the item's two flags, the derive flag, the size
    /// hint and the content length, then one metadata line for each pair of
    /// `initial_meta`, then the authorization. Sending the bytes is left to
    /// the caller.
    pub fn upload_request(
        &self,
        derive: bool,
        initial_meta: &[(&str, &str)],
        filepath: &str,
        size: usize,
    ) -> (r: ureq::Request)
        ensures
            request_method(r) == "PUT"@,
            request_url(r) == "https://s3.us.archive.org/"@ + self@.identifier + "/"@ + filepath@,
            request_headers(r) == authorized(
                meta_lines(
                    upload_base_lines(self@, derive, size as nat),
                    initial_meta@,
                    initial_meta@.len() as int,
                ),
                self@.credentials,
            ),
    {
        let url = String::from_str("https://s3.us.archive.org/").concat(
            self.identifier.as_str(),
        ).concat("/").concat(filepath);
        let mut request = start("PUT", url.as_str());
        request = set_line(request, "user-agent", self.useragent.as_str());
        request = request.set_header(Header::XKeepOldVersion(self.keep_old_versions));
        request = request.set_header(Header::XAutoMakeBucket(self.auto_make_bucket));
        request = request.set_header(Header::XQueueDerive(derive));
        request = request.set_header(Header::XSizeHint(size));
        request = set_line(request, "content-length", render_usize(size).as_str());
        let mut i: usize = 0;
        while i < initial_meta.len()
            invariant
                i <= initial_meta@.len(),
                request_method(request) == "PUT"@,
                request_url(request) == url@,
                request_headers(request) == meta_lines(
                    upload_base_lines(self@, derive, size as nat),
                    initial_meta@,
                    i as int,
                ),
            decreases initial_meta@.len() - i,
        {
            let header = Header::XMeta {
                name: String::from_str(initial_meta[i].0),
                value: String::from_str(initial_meta[i].1),
            };
            request = request.set_header(header);
            i += 1;
        }
        authorize(request, &self.credentials)
    }

    /// Prepares the retrieval of the list of all files of this item.
    pub fn list_request(&self) -> (r: ureq::Request)
        ensures
            request_method(r) == "GET"@,
            request_url(r) == "https://s3.us.archive.org/"@ + self@.identifier,
            request_headers(r) == read_lines(self@),
    {
        let url = String::from_str("https://s3.us.archive.org/").concat(self.identifier.as_str());
        let request = set_line(start("GET", url.as_str()), "user-agent", self.useragent.as_str());
        authorize(request, &self.credentials)
    }

    /// Prepares the download of the file at `filepath` of this item.
    pub fn download_request(&self, filepath: &str) -> (r: ureq::Request)
        ensures
            request_method(r) == "GET"@,
            request_url(r) == "https://archive.org/download/"@ + self@.identifier + "/"@
                + filepath@,
            request_headers(r) == read_lines(self@),
    {
        let url = String::from_str("https://archive.org/download/").concat(
            self.identifier.as_str(),
        ).concat("/").concat(filepath);
        let request = set_line(start("GET", url.as_str()), "user-agent", self.useragent.as_str());
        authorize(request, &self.credentials)
    }

    /// Prepares the retrieval of the item's metadata.
    pub fn metadata_request(&self) -> (r: ureq::Request)
        ensures
            request_method(r) == "GET"@,
            request_url(r) == "https://archive.org/metadata/"@ + self@.identifier,
            request_headers(r) == read_lines(self@),
    {
        let url = String::from_str("https://archive.org/metadata/").concat(
            self.identifier.as_str(),
        );
        let request = set_line(start("GET", url.as_str()), "user-agent", self.useragent.as_str());
        authorize(request, &self.credentials)
    }
}

} // verus!
