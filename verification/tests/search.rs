use iars::params::Params;
use iars::tasks::search::{
    calls_for, CatalogEntry, Filter, HistoryEntry, Pager, ParseFailure, SearchRequest,
    SearchResponse, Summary,
};
use iars::tasks::{Status, TaskError};
use iars::{Credentials, DEFAULT_USER_AGENT};

fn pairs_of(request: &SearchRequest) -> Vec<(String, String)> {
    let filters = request.filters();
    (0..filters.len())
        .map(|i| (filters.key_at(i).to_string(), filters.value_at(i).to_string()))
        .collect()
}

fn pair(key: &str, value: &str) -> (String, String) {
    (key.to_string(), value.to_string())
}

#[test]
fn every_filter_has_its_own_key() {
    let text = |s: &str| s.to_string();
    let cases = vec![
        (Filter::Identifier(text("item*")), pair("identifier", "item*")),
        (Filter::TaskId(731), pair("task_id", "731")),
        (Filter::Server(text("ia%.us.archive.org")), pair("server", "ia%.us.archive.org")),
        (Filter::Command(text("derive.php")), pair("cmd", "derive.php")),
        (Filter::Submitter(text("me@example.org")), pair("submitter", "me@example.org")),
        (Filter::Priority(-10), pair("priority", "-10")),
        (Filter::Priority(7), pair("priority", "7")),
        (Filter::State(Status::Paused), pair("wait_admin", "9")),
        (Filter::SubmitTimeGt(text("2020-01-01")), pair("submittime>", "2020-01-01")),
        (Filter::SubmitTimeLt(text("2020-01-02")), pair("submittime<", "2020-01-02")),
        (Filter::SubmitTimeGte(text("2020-01-03")), pair("submittime>=", "2020-01-03")),
        (Filter::SubmitTimeLte(text("2020-01-04")), pair("submittime<=", "2020-01-04")),
    ];
    for (filter, expected) in cases {
        assert_eq!(filter.into_pair(), expected);
    }
}

#[test]
fn second_filter_of_a_kind_replaces_the_first() {
    let request = SearchRequest::new()
        .with_filter(Filter::Identifier("first".to_string()))
        .with_filter(Filter::Identifier("second".to_string()));
    assert_eq!(pairs_of(&request), vec![pair("identifier", "second")]);
    assert_eq!(request.filters().get("identifier"), Some("second"));
}

#[test]
fn replacing_one_filter_leaves_the_others() {
    let request = SearchRequest::new()
        .with_filter(Filter::TaskId(1))
        .with_filter(Filter::Server("a".to_string()))
        .with_filter(Filter::State(Status::Queued))
        .with_filter(Filter::TaskId(2))
        .with_filter(Filter::State(Status::Error));
    assert_eq!(
        pairs_of(&request),
        vec![pair("task_id", "2"), pair("server", "a"), pair("wait_admin", "2")]
    );
}

#[test]
fn limit_is_clamped_when_it_is_set() {
    assert_eq!(SearchRequest::new().with_limit(10000).limit(), 500);
    assert_eq!(SearchRequest::new().with_limit(501).limit(), 500);
    assert_eq!(SearchRequest::new().with_limit(500).limit(), 500);
    assert_eq!(SearchRequest::new().with_limit(499).limit(), 499);
    assert_eq!(SearchRequest::new().with_limit(0).limit(), 0);
    assert_eq!(SearchRequest::new().with_limit(usize::MAX).limit(), 500);
    assert_eq!(SearchRequest::new().limit(), 50);
    assert_eq!(SearchRequest::default().limit(), 50);
}

#[test]
fn builders_store_what_they_are_given() {
    let creds = Credentials::new("ak", "sk");
    let request = SearchRequest::new()
        .with_credentials(Some(creds.clone()))
        .with_useragent(Some("agent/1".to_string()))
        .with_categories(false, true, true);
    assert_eq!(request.credentials(), &Some(creds));
    assert_eq!(request.useragent(), "agent/1");
    assert_eq!(request.categories(), (false, true, true));
    let reset = request.clone().with_useragent(Some(String::new())).with_credentials(None);
    assert_eq!(reset.useragent(), DEFAULT_USER_AGENT);
    assert_eq!(reset.credentials(), &None);
    assert_eq!(request.clone().with_useragent(None).useragent(), DEFAULT_USER_AGENT);
    assert_eq!(request.clone(), request);
}

#[test]
fn history_without_an_identifier_is_not_refused_locally() {
    let request = SearchRequest::new()
        .with_categories(true, false, true)
        .with_filter(Filter::Identifier("wild*".to_string()));
    assert_eq!(request.categories(), (true, false, true));
    let prepared = request.prepare(None);
    assert_eq!(
        prepared.url(),
        "https://archive.org/services/tasks.php?identifier=wild*&summary=1&catalog=0&history=1&limit=50"
    );
}

#[test]
fn prepared_call_carries_filters_toggles_limit_and_cursor() {
    let request = SearchRequest::new()
        .with_credentials(Some(Credentials::new("ak", "sk")))
        .with_categories(true, true, false)
        .with_limit(10000)
        .with_filter(Filter::Identifier("test_item".to_string()))
        .with_filter(Filter::Priority(-3));
    let first = request.prepare(None);
    assert_eq!(first.method(), "GET");
    assert_eq!(
        first.url(),
        "https://archive.org/services/tasks.php?identifier=test_item&priority=-3&summary=1&catalog=1&history=0&limit=500"
    );
    assert_eq!(first.header("user-agent"), Some(DEFAULT_USER_AGENT));
    assert_eq!(first.header("authorization"), Some("LOW ak:sk"));
    assert_eq!(first.header_names(), vec!["user-agent", "authorization"]);
    let next = request.prepare(Some("abc".to_string()));
    assert_eq!(
        next.url(),
        "https://archive.org/services/tasks.php?identifier=test_item&priority=-3&summary=1&catalog=1&history=0&limit=500&cursor=abc"
    );
    let anonymous = SearchRequest::new().prepare(None);
    assert_eq!(
        anonymous.url(),
        "https://archive.org/services/tasks.php?summary=1&catalog=0&history=0&limit=50"
    );
    assert_eq!(anonymous.header("authorization"), None);
}

#[test]
fn empty_array_value_decodes_to_the_bare_page() {
    let page = SearchResponse::from_body("{\"success\": true, \"value\": []}").unwrap();
    assert!(page.success);
    assert_eq!(page.catalog, vec![]);
    assert_eq!(page.history, vec![]);
    assert_eq!(page.summary, None);
    assert_eq!(page.cursor, None);
    assert_eq!(page, SearchResponse::bare(true));
}

const ENTRY: &str = "{\"args\": {\"next_cmd\": \"derive\", \"dir\": \"/7/items/x\"}, \
    \"cmd\": \"archive.php\", \"identifier\": \"test_item\", \"priority\": -1, \
    \"server\": \"ia600501.us.archive.org\", \"status\": \"running\", \
    \"submitter\": \"me@example.org\", \"submittime\": \"2024-01-02 03:04:05\", \
    \"task_id\": 4101912345, \"unknown\": [1, 2]}";

fn entry() -> CatalogEntry {
    CatalogEntry {
        args: Params::new()
            .insert("dir".to_string(), "/7/items/x".to_string())
            .insert("next_cmd".to_string(), "derive".to_string()),
        cmd: "archive.php".to_string(),
        identifier: "test_item".to_string(),
        priority: -1,
        server: Some("ia600501.us.archive.org".to_string()),
        status: Status::Running,
        submitter: "me@example.org".to_string(),
        submit_time: "2024-01-02 03:04:05".to_string(),
        task_id: 4101912345,
    }
}

#[test]
fn one_catalog_entry_and_a_cursor() {
    let body = format!("{{\"success\": true, \"value\": {{\"catalog\": [{}], \"cursor\": \"abc\"}}}}", ENTRY);
    let page = SearchResponse::from_body(&body).unwrap();
    assert!(page.success);
    assert_eq!(page.catalog.len(), 1);
    assert_eq!(page.catalog, vec![entry()]);
    assert_eq!(page.history, vec![]);
    assert_eq!(page.summary, None);
    assert_eq!(page.cursor, Some("abc".to_string()));
}

#[test]
fn full_page_decodes() {
    let body = "{\"success\": false, \"value\": {\
        \"summary\": {\"queued\": 1, \"running\": 2, \"error\": 3, \"paused\": 4},\
        \"catalog\": [],\
        \"history\": [{\"args\": {}, \"cmd\": \"derive.php\", \"finished\": 1700000000, \
            \"identifier\": \"old_item\", \"priority\": 0, \"server\": \"ia1.us.archive.org\", \
            \"submitter\": \"you@example.org\", \"submittime\": \"2023-12-31 23:59:59\", \
            \"task_id\": 7}],\
        \"cursor\": null}}";
    let page = SearchResponse::from_body(body).unwrap();
    assert_eq!(
        page,
        SearchResponse {
            success: false,
            catalog: vec![],
            history: vec![HistoryEntry {
                args: Params::new(),
                cmd: "derive.php".to_string(),
                finished: 1700000000,
                identifier: "old_item".to_string(),
                priority: 0,
                server: "ia1.us.archive.org".to_string(),
                submitter: "you@example.org".to_string(),
                submit_time: "2023-12-31 23:59:59".to_string(),
                task_id: 7,
            }],
            summary: Some(Summary { queued: 1, running: 2, error: 3, paused: 4 }),
            cursor: None,
        }
    );
}

#[test]
fn every_status_name_decodes() {
    for (name, status) in [
        ("queued", Status::Queued),
        ("running", Status::Running),
        ("error", Status::Error),
        ("paused", Status::Paused),
    ] {
        let item = ENTRY.replace("\"running\"", &format!("\"{}\"", name));
        let body = format!("{{\"success\": true, \"value\": {{\"catalog\": [{}]}}}}", item);
        let page = SearchResponse::from_body(&body).unwrap();
        assert_eq!(page.catalog.len(), 1);
        assert_eq!(page.catalog[0].status, status);
    }
}

#[test]
fn missing_or_null_server_is_absent() {
    let null = ENTRY.replace("\"ia600501.us.archive.org\"", "null");
    let gone = ENTRY.replace("\"server\": \"ia600501.us.archive.org\", ", "");
    for item in [null, gone] {
        let body = format!("{{\"success\": true, \"value\": {{\"catalog\": [{}]}}}}", item);
        let page = SearchResponse::from_body(&body).unwrap();
        assert_eq!(page.catalog.len(), 1);
        assert_eq!(page.catalog[0].server, None);
    }
}

#[test]
fn any_unreadable_value_decodes_to_the_bare_page() {
    let broken_entry = ENTRY.replace("\"cmd\": \"archive.php\", ", "");
    let wrong_status = ENTRY.replace("\"running\"", "\"sleeping\"");
    let wrong_number = ENTRY.replace("4101912345", "-5");
    let fraction = ENTRY.replace("4101912345", "1.5");
    let wrong_arg = ENTRY.replace("\"derive\"", "12");
    let values = vec![
        "[]".to_string(),
        "null".to_string(),
        "\"nothing\"".to_string(),
        "17".to_string(),
        "false".to_string(),
        "[[], [], null, null]".to_string(),
        "{\"catalog\": null}".to_string(),
        "{\"catalog\": {}}".to_string(),
        "{\"history\": 3}".to_string(),
        "{\"cursor\": 3}".to_string(),
        "{\"summary\": {\"queued\": 1}}".to_string(),
        "{\"summary\": []}".to_string(),
        "{\"history\": [{}], \"cursor\": \"kept?\"}".to_string(),
        format!("{{\"catalog\": [{}, {}], \"cursor\": \"c\"}}", ENTRY, broken_entry),
        format!("{{\"catalog\": [{}]}}", wrong_status),
        format!("{{\"catalog\": [{}]}}", wrong_number),
        format!("{{\"catalog\": [{}]}}", fraction),
        format!("{{\"catalog\": [{}]}}", wrong_arg),
    ];
    for value in values {
        for success in [true, false] {
            let body = format!("{{\"value\": {}, \"success\": {}}}", value, success);
            let page = SearchResponse::from_body(&body).unwrap();
            assert_eq!(page, SearchResponse::bare(success), "{}", value);
        }
    }
}

#[test]
fn empty_object_value_is_an_empty_page() {
    let page = SearchResponse::from_body("{\"success\": true, \"value\": {}}").unwrap();
    assert_eq!(page, SearchResponse::bare(true));
    let with_summary = SearchResponse::from_body(
        "{\"success\": true, \"value\": {\"summary\": {\"queued\": 0, \"running\": 0, \"error\": 0, \"paused\": 5, \"extra\": 1}}}",
    )
    .unwrap();
    assert_eq!(with_summary.summary, Some(Summary { queued: 0, running: 0, error: 0, paused: 5 }));
    assert_eq!(with_summary.cursor, None);
}

#[test]
fn envelope_without_a_value_decodes_to_the_bare_page() {
    let page = SearchResponse::from_body("{\"success\": true}").unwrap();
    assert_eq!(
        page,
        SearchResponse { success: true, catalog: vec![], history: vec![], summary: None, cursor: None }
    );
    let failed = SearchResponse::from_body("{\"success\": false, \"other\": 1}").unwrap();
    assert_eq!(failed, SearchResponse::bare(false));
    let envelope: serde_json::Value = serde_json::from_str("{\"success\": true}").unwrap();
    assert_eq!(SearchResponse::from_value(&envelope).unwrap(), SearchResponse::bare(true));
}

#[test]
fn body_that_is_not_json_is_a_syntax_failure() {
    for body in ["", "not json", "{\"success\": true, \"value\": [", "{} {}"] {
        match SearchResponse::from_body(body) {
            Err(TaskError::Parse(ParseFailure::Syntax(_))) => {}
            other => panic!("{:?} gave {:?}", body, other),
        }
    }
}

#[test]
fn body_that_is_no_envelope_is_an_envelope_failure() {
    let bodies = [
        "{}",
        "[]",
        "null",
        "3",
        "{\"value\": {}}",
        "{\"success\": \"yes\"}",
        "{\"success\": \"true\", \"value\": {}}",
        "{\"success\": 1, \"value\": {}}",
        "{\"success\": null, \"value\": []}",
    ];
    for body in bodies {
        match SearchResponse::from_body(body) {
            Err(TaskError::Parse(ParseFailure::Envelope)) => {}
            other => panic!("{:?} gave {:?}", body, other),
        }
    }
}

#[test]
fn from_value_decodes_a_parsed_envelope() {
    let envelope: serde_json::Value =
        serde_json::from_str("{\"success\": true, \"value\": {\"cursor\": \"next\"}}").unwrap();
    let page = SearchResponse::from_value(&envelope).unwrap();
    assert_eq!(page.cursor, Some("next".to_string()));
    let bad: serde_json::Value = serde_json::from_str("{\"value\": {}}").unwrap();
    assert!(matches!(SearchResponse::from_value(&bad), Err(ParseFailure::Envelope)));
}

fn page_with(cursor: Option<&str>) -> String {
    match cursor {
        Some(token) => format!("{{\"success\": true, \"value\": {{\"cursor\": \"{}\"}}}}", token),
        None => "{\"success\": true, \"value\": {\"catalog\": []}}".to_string(),
    }
}

#[test]
fn pagination_stops_after_the_page_without_a_cursor() {
    let bodies = vec![page_with(Some("a")), page_with(Some("b")), page_with(None), page_with(Some("z"))];
    let request = SearchRequest::new().with_filter(Filter::Identifier("test_item".to_string()));
    let mut sent: Vec<String> = Vec::new();
    let mut pager = Pager::start();
    let mut calls = 0;
    while let Pager::Ready { cursor } = pager.clone() {
        sent.push(request.prepare(cursor).url().to_string());
        let page = SearchResponse::from_body(&bodies[calls]).unwrap();
        calls += 1;
        pager = pager.advance(&page);
    }
    assert_eq!(calls, 3);
    assert_eq!(pager, Pager::Exhausted);
    assert!(!pager.is_ready());
    let base = "https://archive.org/services/tasks.php?identifier=test_item&summary=1&catalog=0&history=0&limit=50";
    assert_eq!(
        sent,
        vec![base.to_string(), format!("{}&cursor=a", base), format!("{}&cursor=b", base)]
    );
}

#[test]
fn pager_states() {
    let start = Pager::start();
    assert_eq!(start, Pager::Ready { cursor: None });
    assert!(start.is_ready());
    let more = SearchResponse::from_body(&page_with(Some("t"))).unwrap();
    let last = SearchResponse::from_body(&page_with(None)).unwrap();
    assert_eq!(start.clone().advance(&more), Pager::Ready { cursor: Some("t".to_string()) });
    assert_eq!(start.advance(&last), Pager::Exhausted);
    assert_eq!(Pager::Exhausted.advance(&more), Pager::Exhausted);
}

fn pages(cursors: &[Option<&str>]) -> Vec<SearchResponse> {
    cursors.iter().map(|c| SearchResponse::from_body(&page_with(*c)).unwrap()).collect()
}

#[test]
fn three_pages_take_three_calls() {
    assert_eq!(calls_for(&pages(&[Some("a"), Some("b"), None])), 3);
}

#[test]
fn calls_stop_at_the_first_page_without_a_cursor() {
    assert_eq!(calls_for(&pages(&[])), 0);
    assert_eq!(calls_for(&pages(&[None])), 1);
    assert_eq!(calls_for(&pages(&[None, Some("late")])), 1);
    assert_eq!(calls_for(&pages(&[Some("a"), None, Some("b"), None])), 2);
    assert_eq!(calls_for(&pages(&[Some("a"), Some("b")])), 2);
}
