use iars::config::useragent_or_default;
use iars::identifier::validate_identifier;
use iars::{Credentials, DEFAULT_USER_AGENT};

#[test]
fn new_keeps_both_keys_as_given() {
    let creds = Credentials::new("access", "secret");
    assert_eq!(creds.access, "access");
    assert_eq!(creds.secret, "secret");
    let odd = Credentials::new("", "not checked: \u{e9}");
    assert_eq!(odd.access, "");
    assert_eq!(odd.secret, "not checked: \u{e9}");
}

#[test]
fn loading_two_non_empty_values_gives_those_values() {
    let loaded = Credentials::try_from_values(Some("AKIA".to_string()), Some("shh".to_string()));
    assert_eq!(loaded, Some(Credentials { access: "AKIA".to_string(), secret: "shh".to_string() }));
}

#[test]
fn loading_a_missing_or_empty_value_gives_none() {
    let some = |s: &str| Some(s.to_string());
    assert_eq!(Credentials::try_from_values(None, some("s")), None);
    assert_eq!(Credentials::try_from_values(some("a"), None), None);
    assert_eq!(Credentials::try_from_values(None, None), None);
    assert_eq!(Credentials::try_from_values(some(""), some("s")), None);
    assert_eq!(Credentials::try_from_values(some("a"), some("")), None);
    assert_eq!(Credentials::try_from_values(some(""), some("")), None);
}

#[test]
fn default_useragent_text() {
    assert_eq!(DEFAULT_USER_AGENT, "iars <https://crates.io/crates/iars>");
}

#[test]
fn useragent_falls_back_to_the_default() {
    assert_eq!(useragent_or_default(None), DEFAULT_USER_AGENT);
    assert_eq!(useragent_or_default(Some(String::new())), DEFAULT_USER_AGENT);
    assert_eq!(useragent_or_default(Some("mine/1.0".to_string())), "mine/1.0");
}

#[test]
fn identifiers_that_are_valid() {
    assert!(validate_identifier("a"));
    assert!(validate_identifier("0"));
    assert!(validate_identifier("test_item"));
    assert!(validate_identifier("Test-Item.v2_final"));
    assert!(validate_identifier("a..--__"));
    assert!(validate_identifier(&"a".repeat(100)));
}

#[test]
fn identifiers_that_are_not_valid() {
    assert!(!validate_identifier(""));
    assert!(!validate_identifier(&"a".repeat(101)));
    assert!(!validate_identifier("_leading"));
    assert!(!validate_identifier("-leading"));
    assert!(!validate_identifier(".leading"));
    assert!(!validate_identifier("has space"));
    assert!(!validate_identifier("slash/slash"));
    assert!(!validate_identifier("caf\u{e9}"));
    assert!(!validate_identifier("\u{e9}cole"));
    assert!(!validate_identifier("star*"));
    assert!(!validate_identifier(&format!("a{}", "\u{e9}".repeat(60))));
}
