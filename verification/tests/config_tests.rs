use bbsmon::config::load_config;
use bbsmon::error::{ErrorKind, MyError};

const FULL: &str = r#"{
    "local_rss": "old-rss.xml",
    "remote_rss": "http://example.org/feed.xml",
    "subject": "New posts",
    "from": "monitor@example.org",
    "to": "reader@example.org",
    "password": "SECRET-REDACTED",
    "server": "mail.example.org"
}"#;

fn without(field: &str) -> String {
    let mut value: serde_json::Value = serde_json::from_str(FULL).unwrap();
    value.as_object_mut().unwrap().remove(field);
    value.to_string()
}

fn with(field: &str, member: serde_json::Value) -> String {
    let mut value: serde_json::Value = serde_json::from_str(FULL).unwrap();
    value.as_object_mut().unwrap().insert(field.to_string(), member);
    value.to_string()
}

#[test]
fn a_full_configuration_is_read_field_by_field() {
    let config = load_config(FULL).unwrap();
    assert_eq!(config.local_rss, "old-rss.xml");
    assert_eq!(config.remote_rss, "http://example.org/feed.xml");
    assert_eq!(config.subject, "New posts");
    assert_eq!(config.from, "monitor@example.org");
    assert_eq!(config.to, "reader@example.org");
    assert_eq!(config.password, "SECRET-REDACTED");
    assert_eq!(config.server, "mail.example.org");
}

#[test]
fn every_field_is_required() {
    for field in ["local_rss", "remote_rss", "subject", "from", "to", "password", "server"] {
        let err = load_config(&without(field)).unwrap_err();
        assert_eq!(err.kind(), ErrorKind::Config);
        assert_eq!(err.description(), field);
    }
}

#[test]
fn the_cause_names_the_first_field_that_is_missing() {
    let mut value: serde_json::Value = serde_json::from_str(FULL).unwrap();
    value.as_object_mut().unwrap().remove("server");
    value.as_object_mut().unwrap().remove("subject");
    value.as_object_mut().unwrap().insert("to".to_string(), serde_json::Value::from(1));
    assert_eq!(load_config(&value.to_string()).unwrap_err().description(), "subject");
    assert_eq!(load_config("{}").unwrap_err().description(), "local_rss");
    assert_eq!(load_config("[]").unwrap_err().description(), "local_rss");
}

#[test]
fn a_configuration_without_server_is_a_config_error() {
    let err = load_config(&without("server")).unwrap_err();
    assert!(matches!(err, MyError::ConfigError(_)));
}

#[test]
fn a_field_of_another_type_is_a_config_error() {
    let err = load_config(&with("subject", serde_json::Value::from(7))).unwrap_err();
    assert_eq!(err.kind(), ErrorKind::Config);
    let err = load_config(&with("to", serde_json::Value::Null)).unwrap_err();
    assert_eq!(err.kind(), ErrorKind::Config);
    let err = load_config(&with("server", serde_json::Value::from(vec!["a", "b"]))).unwrap_err();
    assert_eq!(err.kind(), ErrorKind::Config);
}

#[test]
fn members_that_are_not_asked_for_are_ignored() {
    let config = load_config(&with("retries", serde_json::Value::from(3))).unwrap();
    assert_eq!(config.server, "mail.example.org");
}

#[test]
fn an_empty_string_is_a_string() {
    let config = load_config(&with("subject", serde_json::Value::from(""))).unwrap();
    assert_eq!(config.subject, "");
}

#[test]
fn text_that_is_no_json_is_a_config_error() {
    for text in ["", "{", "local_rss = old-rss.xml", "{\"server\": }"] {
        let err = load_config(text).unwrap_err();
        assert_eq!(err.kind(), ErrorKind::Config);
        assert!(!err.description().is_empty());
    }
}

#[test]
fn json_that_is_no_object_is_a_config_error() {
    for text in ["[]", "\"server\"", "42", "null", "[\"a\",\"b\",\"c\",\"d\",\"e\",\"f\",\"g\"]"] {
        let err = load_config(text).unwrap_err();
        assert_eq!(err.kind(), ErrorKind::Config);
    }
}

#[test]
fn an_error_tells_its_kind_and_cause() {
    let kinds = [
        ErrorKind::Config,
        ErrorKind::Network,
        ErrorKind::Parse,
        ErrorKind::Storage,
        ErrorKind::Render,
        ErrorKind::Mail,
    ];
    for kind in kinds {
        let err = MyError::new(kind, "the cause".to_string());
        assert_eq!(err.kind(), kind);
        assert_eq!(err.description(), "the cause");
    }
    assert!(matches!(MyError::new(ErrorKind::Config, String::new()), MyError::ConfigError(_)));
    assert!(matches!(MyError::new(ErrorKind::Network, String::new()), MyError::NetworkError(_)));
    assert!(matches!(MyError::new(ErrorKind::Parse, String::new()), MyError::ParseError(_)));
    assert!(matches!(MyError::new(ErrorKind::Storage, String::new()), MyError::StorageError(_)));
    assert!(matches!(MyError::new(ErrorKind::Render, String::new()), MyError::RenderError(_)));
    assert!(matches!(MyError::new(ErrorKind::Mail, String::new()), MyError::MailError(_)));
}
