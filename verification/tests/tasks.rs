use std::collections::HashMap;

use iars::params::Params;
use iars::tasks::search::Filter;
use iars::tasks::{log_request, search, submit, Command, Status, TaskError};
use iars::{Credentials, DEFAULT_USER_AGENT};

fn list(pairs: &[(&str, &str)]) -> Params {
    let mut out = Params::new();
    for (k, v) in pairs {
        out = out.insert(k.to_string(), v.to_string());
    }
    out
}

#[test]
fn command_names() {
    assert_eq!(Command::Archive.name(), "archive.php");
    assert_eq!(Command::BookOp { operations: HashMap::new() }.name(), "book_op.php");
    assert_eq!(Command::Bup.name(), "bup.php");
    assert_eq!(Command::Delete.name(), "delete.php");
    assert_eq!(Command::Derive { remove_derived: "*".to_string() }.name(), "derive.php");
    assert_eq!(Command::Fixer { args: Params::new() }.name(), "fixer.php");
    assert_eq!(Command::MakeDark { comment: "c".to_string() }.name(), "make_dark.php");
    assert_eq!(Command::MakeUndark { comment: "c".to_string() }.name(), "make_undark.php");
    assert_eq!(Command::ModifyXml.name(), "modify_xml.php");
    assert_eq!(Command::Rename { new_identifier: "n".to_string() }.name(), "rename.php");
    assert_eq!(
        Command::Custom { name: "my*.php".to_string(), args: Params::new() }.name(),
        "my*.php"
    );
}

#[test]
fn command_args() {
    assert_eq!(Command::Archive.args(), Params::new());
    assert_eq!(Command::Bup.args(), Params::new());
    assert_eq!(Command::Delete.args(), Params::new());
    assert_eq!(Command::ModifyXml.args(), Params::new());
    assert_eq!(
        Command::Derive { remove_derived: "*.jpg".to_string() }.args(),
        list(&[("remove_derived", "*.jpg")])
    );
    assert_eq!(
        Command::MakeDark { comment: "spam".to_string() }.args(),
        list(&[("comment", "spam")])
    );
    assert_eq!(
        Command::MakeUndark { comment: "fine".to_string() }.args(),
        list(&[("comment", "fine")])
    );
    assert_eq!(
        Command::Rename { new_identifier: "other".to_string() }.args(),
        list(&[("new_identifier", "other")])
    );
    let given = list(&[("a", "1"), ("b", "2")]);
    assert_eq!(Command::Fixer { args: given.clone() }.args(), given);
    assert_eq!(Command::Custom { name: "x.php".to_string(), args: given.clone() }.args(), given);
}

#[test]
fn book_operations_become_numbered_args() {
    let operations: HashMap<usize, String> =
        [(1, "first".to_string()), (20, "second".to_string()), (0, "third".to_string())].into();
    let args = Command::BookOp { operations }.args();
    assert_eq!(args.len(), 3);
    assert_eq!(args.get("op1"), Some("first"));
    assert_eq!(args.get("op20"), Some("second"));
    assert_eq!(args.get("op0"), Some("third"));
    assert_eq!(args, list(&[("op0", "third"), ("op1", "first"), ("op20", "second")]));
    assert_eq!(Command::BookOp { operations: HashMap::new() }.args(), Params::new());
}

#[test]
fn many_book_operations_keep_their_numbers_apart() {
    let operations: HashMap<usize, String> = (0..300usize).map(|n| (n, format!("v{}", n))).collect();
    let args = Command::BookOp { operations }.args();
    assert_eq!(args.len(), 300);
    for n in [0usize, 1, 10, 11, 100, 101, 110, 299] {
        let value = format!("v{}", n);
        assert_eq!(args.get(&format!("op{}", n)), Some(value.as_str()));
    }
    assert_eq!(args.get("op300"), None);
}

#[test]
fn status_colors_and_codes() {
    assert_eq!(Status::Queued.color(), "green");
    assert_eq!(Status::Running.color(), "blue");
    assert_eq!(Status::Error.color(), "red");
    assert_eq!(Status::Paused.color(), "brown");
    assert_eq!(Status::Queued.wait_admin(), 0);
    assert_eq!(Status::Running.wait_admin(), 1);
    assert_eq!(Status::Error.wait_admin(), 2);
    assert_eq!(Status::Paused.wait_admin(), 9);
    assert_eq!(Status::Queued.to_string(), "0");
    assert_eq!(Status::Running.to_string(), "1");
    assert_eq!(Status::Error.to_string(), "2");
    assert_eq!(Status::Paused.to_string(), "9");
}

#[test]
fn status_code_equals_the_state_filter_value() {
    for status in [Status::Queued, Status::Running, Status::Error, Status::Paused] {
        let pair = Filter::State(status).into_pair();
        assert_eq!(pair.0, "wait_admin");
        assert_eq!(pair.1, status.wait_admin().to_string());
    }
}

#[test]
fn search_and_submit_start_from_the_defaults() {
    let request = search();
    assert_eq!(request.limit(), 50);
    assert_eq!(request.categories(), (true, false, false));
    assert_eq!(request.useragent(), DEFAULT_USER_AGENT);
    assert_eq!(request.credentials(), &None);
    assert_eq!(request.filters().len(), 0);
    let submission = submit();
    assert_eq!(submission.credentials, None);
    assert_eq!(submission.useragent, DEFAULT_USER_AGENT);
}

#[test]
fn log_request_carries_task_number_agent_and_keys() {
    let creds = Credentials::new("ak", "sk");
    let request = log_request(1234567, &creds, None);
    assert_eq!(request.method(), "GET");
    assert_eq!(request.url(), "https://catalogd.archive.org/services/tasks.php?task_log=1234567");
    assert_eq!(request.header("user-agent"), Some(DEFAULT_USER_AGENT));
    assert_eq!(request.header("authorization"), Some("LOW ak:sk"));
    let named = log_request(0, &creds, Some("me/2".to_string()));
    assert_eq!(named.url(), "https://catalogd.archive.org/services/tasks.php?task_log=0");
    assert_eq!(named.header("user-agent"), Some("me/2"));
    let empty = log_request(0, &creds, Some(String::new()));
    assert_eq!(empty.header("user-agent"), Some(DEFAULT_USER_AGENT));
}

fn status_error(code: u16, body: &str) -> ureq::Error {
    ureq::Error::Status(code, ureq::Response::new(code, "Status", body).unwrap())
}

#[test]
fn status_403_is_forbidden_whatever_the_body() {
    for body in ["", "denied", "{\"success\": true, \"value\": []}", "<xml/>"] {
        match TaskError::from_call(status_error(403, body)) {
            TaskError::Forbidden(response) => {
                assert_eq!(response.status(), 403);
                assert_eq!(response.into_string().unwrap(), body);
            }
            other => panic!("not forbidden: {:?}", other),
        }
    }
}

#[test]
fn other_statuses_stay_call_errors() {
    for code in [400u16, 401, 402, 404, 409, 430, 500, 503] {
        match TaskError::from_call(status_error(code, "body")) {
            TaskError::Ureq(ureq::Error::Status(kept, response)) => {
                assert_eq!(kept, code);
                assert_eq!(response.into_string().unwrap(), "body");
            }
            other => panic!("not a call error: {:?}", other),
        }
    }
}

#[test]
fn transport_failures_stay_call_errors() {
    let failure = ureq::get("nowhere://archive.invalid/").call().unwrap_err();
    assert!(matches!(failure, ureq::Error::Transport(_)));
    let kind = failure.kind();
    match TaskError::from_call(failure) {
        TaskError::Ureq(kept) => {
            assert!(matches!(kept, ureq::Error::Transport(_)));
            assert_eq!(kept.kind(), kind);
        }
        other => panic!("not a call error: {:?}", other),
    }
}

#[test]
fn filters_from_command_and_status() {
    assert_eq!(Filter::from(Command::Derive { remove_derived: String::new() }), Filter::Command("derive.php".to_string()));
    assert_eq!(Filter::for_command(&Command::Bup), Filter::Command("bup.php".to_string()));
    assert_eq!(Filter::from(Status::Paused), Filter::State(Status::Paused));
}

#[test]
fn errors_convert_with_from() {
    let forbidden: TaskError = status_error(403, "x").into();
    assert!(matches!(forbidden, TaskError::Forbidden(_)));
    let missing: TaskError = status_error(404, "x").into();
    assert!(matches!(missing, TaskError::Ureq(ureq::Error::Status(404, _))));
    let io: TaskError = std::io::Error::new(std::io::ErrorKind::Other, "broken pipe").into();
    match io {
        TaskError::Io(inner) => assert_eq!(inner.to_string(), "broken pipe"),
        other => panic!("not an i/o error: {:?}", other),
    }
}

#[test]
fn outcomes_of_calls_are_classified() {
    let answer = ureq::Response::new(200, "OK", "log text").unwrap();
    match TaskError::classify(Ok(answer)) {
        Ok(response) => {
            assert_eq!(response.status(), 200);
            assert_eq!(response.into_string().unwrap(), "log text");
        }
        Err(other) => panic!("an answer became {:?}", other),
    }
    match TaskError::classify(Err(status_error(403, "no log for you"))) {
        Err(TaskError::Forbidden(response)) => {
            assert_eq!(response.status(), 403);
            assert_eq!(response.status_text(), "Status");
            assert_eq!(response.into_string().unwrap(), "no log for you");
        }
        other => panic!("not forbidden: {:?}", other),
    }
    assert!(matches!(
        TaskError::classify(Err(status_error(500, ""))),
        Err(TaskError::Ureq(ureq::Error::Status(500, _)))
    ));
}
