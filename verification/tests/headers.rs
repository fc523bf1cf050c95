use iars::headers::{Header, RequestHeaderExt};
use iars::Credentials;

fn line(header: &Header) -> (String, String) {
    header.render()
}

fn pair(name: &str, value: &str) -> (String, String) {
    (name.to_string(), value.to_string())
}

fn one_of_each() -> Vec<Header> {
    vec![
        Header::ContentLength(42),
        Header::Authorization { access: "ak".to_string(), secret: "sk".to_string() },
        Header::ContentType("text/plain".to_string()),
        Header::ContentMd5("d41d8cd98f00b204e9800998ecf8427e".to_string()),
        Header::XAutoMakeBucket(true),
        Header::XCascadeDelete(false),
        Header::XIgnorePreexistingBucket(true),
        Header::XKeepOldVersion(false),
        Header::XMeta { name: "title".to_string(), value: "A Title".to_string() },
        Header::XQueueDerive(true),
        Header::XSizeHint(0),
        Header::Custom("x-anything".to_string(), "at all".to_string()),
    ]
}

#[test]
fn every_variant_renders_its_line() {
    let lines: Vec<(String, String)> = one_of_each().iter().map(line).collect();
    assert_eq!(
        lines,
        vec![
            pair("content-length", "42"),
            pair("authorization", "LOW ak:sk"),
            pair("content-type", "text/plain"),
            pair("content-md5", "d41d8cd98f00b204e9800998ecf8427e"),
            pair("x-amz-auto-make-bucket", "1"),
            pair("x-archive-cascade-delete", "0"),
            pair("x-archive-ignore-preexisting-bucket", "1"),
            pair("x-archive-keep-old-version", "0"),
            pair("x-archive-meta-title", "A Title"),
            pair("x-archive-queue-derive", "1"),
            pair("x-archive-size-hint", "0"),
            pair("x-anything", "at all"),
        ]
    );
}

#[test]
fn rendering_twice_gives_the_same_line() {
    for header in one_of_each() {
        assert_eq!(line(&header), line(&header));
        assert_eq!(line(&header), line(&header.clone()));
    }
}

#[test]
fn boolean_flags_render_as_one_and_zero() {
    assert_eq!(line(&Header::XAutoMakeBucket(true)), pair("x-amz-auto-make-bucket", "1"));
    assert_eq!(line(&Header::XAutoMakeBucket(false)), pair("x-amz-auto-make-bucket", "0"));
    assert_eq!(line(&Header::XCascadeDelete(true)), pair("x-archive-cascade-delete", "1"));
    assert_eq!(line(&Header::XCascadeDelete(false)), pair("x-archive-cascade-delete", "0"));
    assert_eq!(
        line(&Header::XIgnorePreexistingBucket(true)),
        pair("x-archive-ignore-preexisting-bucket", "1")
    );
    assert_eq!(
        line(&Header::XIgnorePreexistingBucket(false)),
        pair("x-archive-ignore-preexisting-bucket", "0")
    );
    assert_eq!(line(&Header::XKeepOldVersion(true)), pair("x-archive-keep-old-version", "1"));
    assert_eq!(line(&Header::XKeepOldVersion(false)), pair("x-archive-keep-old-version", "0"));
    assert_eq!(line(&Header::XQueueDerive(true)), pair("x-archive-queue-derive", "1"));
    assert_eq!(line(&Header::XQueueDerive(false)), pair("x-archive-queue-derive", "0"));
}

#[test]
fn size_values_render_in_decimal() {
    assert_eq!(line(&Header::ContentLength(0)).1, "0");
    assert_eq!(line(&Header::ContentLength(1073741824)).1, "1073741824");
    assert_eq!(line(&Header::XSizeHint(usize::MAX)).1, usize::MAX.to_string());
}

#[test]
fn set_header_reaches_the_request() {
    let creds = Credentials::new("abc", "xyz");
    let req = ureq::get("https://archive.org/services/tasks.php")
        .set_header(Header::XSizeHint(1234))
        .set_header(creds.to_header());
    assert_eq!(req.header("x-archive-size-hint"), Some("1234"));
    assert_eq!(req.header("authorization"), Some("LOW abc:xyz"));
    assert_eq!(req.header_names(), vec!["x-archive-size-hint", "authorization"]);
}

#[test]
fn set_header_keeps_lines_of_other_names_in_order() {
    let req = ureq::get("https://archive.org/")
        .set_header(Header::ContentType("a/b".to_string()))
        .set_header(Header::XKeepOldVersion(true))
        .set_header(Header::ContentMd5("00".to_string()))
        .set_header(Header::ContentType("c/d".to_string()));
    assert_eq!(
        req.header_names(),
        vec!["x-archive-keep-old-version", "content-md5", "content-type"]
    );
    assert_eq!(req.header("content-type"), Some("c/d"));
    assert_eq!(req.header("x-archive-keep-old-version"), Some("1"));
    assert_eq!(req.header("content-md5"), Some("00"));
}

#[test]
fn extension_lines_may_repeat() {
    let req = ureq::get("https://archive.org/")
        .set_header(Header::XMeta { name: "subject".to_string(), value: "one".to_string() })
        .set_header(Header::XMeta { name: "subject".to_string(), value: "two".to_string() });
    assert_eq!(req.all("x-archive-meta-subject"), vec!["one", "two"]);
}

#[test]
fn credentials_convert_into_the_authorization_header() {
    let creds = Credentials::new("abcdefghijklmnop", "1234567890123456");
    let header: Header = (&creds).into();
    assert_eq!(
        header,
        Header::Authorization {
            access: "abcdefghijklmnop".to_string(),
            secret: "1234567890123456".to_string()
        }
    );
    assert_eq!(header, creds.to_header());
    assert_eq!(line(&header), pair("authorization", "LOW abcdefghijklmnop:1234567890123456"));
}
