//! The parameters of a run, read from a JSON object.

use vstd::prelude::*;
use crate::error::{ErrorKind, MyError};

verus! {

/// `serde_json::Value`, a JSON document in memory.
#[verifier::external_type_specification]
#[verifier::external_body]
pub struct ExJsonValue(serde_json::Value);

/// `serde_json::Error`, carried from the reader to the error of a run.
#[verifier::external_type_specification]
#[verifier::external_body]
pub struct ExJsonError(serde_json::Error);

/// The text members of a JSON value: where the value is an object, its
/// members whose value is a string, each under its key; nothing otherwise.
pub uninterp spec fn json_texts(value: serde_json::Value) -> Map<Seq<char>, Seq<char>>;

/// The text members of the JSON document written in `text`, or `None` where
/// `text` is no JSON document.
pub uninterp spec fn json_document(text: Seq<char>) -> Option<Map<Seq<char>, Seq<char>>>;

/// Reads `text` with `serde_json::from_str` as a `serde_json::Value`. The
/// contract names the outcome: `json_document(text)` is what the value holds
/// as text members, and is `None` exactly where the reader fails.
#[verifier::external_body]
fn parse_json(text: &str) -> (r: Result<serde_json::Value, serde_json::Error>)
    ensures
        match r {
            Ok(value) => json_document(text@) == Some(json_texts(value)),
            Err(_) => json_document(text@) is None,
        },
{
    serde_json::from_str::<serde_json::Value>(text)
}

/// Looks `key` up with `serde_json::Value::get` and reads the member with
/// `serde_json::Value::as_str`: the member's text where `value` is an object
/// that holds a string under `key`, `None` in every other case.
#[verifier::external_body]
fn text_member(value: &serde_json::Value, key: &str) -> (r: Option<String>)
    ensures
        match r {
            Some(text) => json_texts(*value).contains_key(key@) && json_texts(*value)[key@]
                == text@,
            None => !json_texts(*value).contains_key(key@),
        },
{
    value.get(key).and_then(|member| member.as_str()).map(|text| text.to_owned())
}

/// The model of a [`Config`].
pub ghost struct ConfigView {
    pub local_rss: Seq<char>,
    pub remote_rss: Seq<char>,
    pub subject: Seq<char>,
    pub from: Seq<char>,
    pub to: Seq<char>,
    pub password: Seq<char>,
    pub server: Seq<char>,
}

/// The parameters of a run. They are read once and never changed.
#[derive(Debug)]
pub struct Config {
    /// Where the snapshot is stored.
    pub local_rss: String,
    /// The address of the remote feed.
    pub remote_rss: String,
    /// The subject of the notification.
    pub subject: String,
    /// The sender's address, which is also the name of the mail account.
    pub from: String,
    /// The recipient's address.
    pub to: String,
    /// The credential of the mail account.
    pub password: String,
    /// The host of the mail server.
    pub server: String,
}

impl View for Config {
    type V = ConfigView;

    open spec fn view(&self) -> ConfigView {
        ConfigView {
            local_rss: self.local_rss@,
            remote_rss: self.remote_rss@,
            subject: self.subject@,
            from: self.from@,
            to: self.to@,
            password: self.password@,
            server: self.server@,
        }
    }
}

/// The configuration that a set of text members gives: all seven fields
/// are required, so there is none where one of them is missing.
pub open spec fn config_of(texts: Map<Seq<char>, Seq<char>>) -> Option<ConfigView> {
    if texts.contains_key("local_rss"@) && texts.contains_key("remote_rss"@) && texts.contains_key(
        "subject"@,
    ) && texts.contains_key("from"@) && texts.contains_key("to"@) && texts.contains_key(
        "password"@,
    ) && texts.contains_key("server"@) {
        Some(
            ConfigView {
                local_rss: texts["local_rss"@],
                remote_rss: texts["remote_rss"@],
                subject: texts["subject"@],
                from: texts["from"@],
                to: texts["to"@],
                password: texts["password"@],
                server: texts["server"@],
            },
        )
    } else {
        None
    }
}

/// The first of the seven fields, in the order in which they are asked
/// for, that a set of text members lacks.
pub open spec fn first_missing(texts: Map<Seq<char>, Seq<char>>) -> Seq<char> {
    if !texts.contains_key("local_rss"@) {
        "local_rss"@
    } else if !texts.contains_key("remote_rss"@) {
        "remote_rss"@
    } else if !texts.contains_key("subject"@) {
        "subject"@
    } else if !texts.contains_key("from"@) {
        "from"@
    } else if !texts.contains_key("to"@) {
        "to"@
    } else if !texts.contains_key("password"@) {
        "password"@
    } else {
        "server"@
    }
}

/// The configuration written in `text`: `None` where `text` is no JSON
/// document, or is one without all seven fields as strings.
pub open spec fn config_in(text: Seq<char>) -> Option<ConfigView> {
    match json_document(text) {
        Some(texts) => config_of(texts),
        None => None,
    }
}

/// The text under `key`; a `ConfigError` that names `key` where `value`
/// holds no string under it.
fn required_text(value: &serde_json::Value, key: &str) -> (r: Result<String, MyError>)
    ensures
        match r {
            Ok(text) => json_texts(*value).contains_key(key@) && json_texts(*value)[key@]
                == text@,
            Err(e) => !json_texts(*value).contains_key(key@) && e.kind() == ErrorKind::Config
                && e.spec_cause() == key@,
        },
{
    match text_member(value, key) {
        Some(text) => Ok(text),
        None => Err(MyError::ConfigError(key.to_owned())),
    }
}

/// Reads the configuration from the text of a JSON object. Every one of the
/// seven fields must be there and be a string; anything else is a
/// `ConfigError`. Where the text is a JSON document, the cause is the name
/// of the first field that is missing or is no string. Members that are
/// not asked for are ignored.
pub fn load_config(text: &str) -> (r: Result<Config, MyError>)
    ensures
        match r {
            Ok(config) => config_in(text@) == Some(config@),
            Err(e) => config_in(text@) is None && e.kind() == ErrorKind::Config && (json_document(
                text@,
            ) matches Some(texts) ==> e.spec_cause() == first_missing(texts)),
        },
{
    let value = match parse_json(text) {
        Ok(value) => value,
        Err(cause) => {
            return Err(MyError::ConfigError(cause.to_string()));
        },
    };
    let local_rss = required_text(&value, "local_rss")?;
    let remote_rss = required_text(&value, "remote_rss")?;
    let subject = required_text(&value, "subject")?;
    let from = required_text(&value, "from")?;
    let to = required_text(&value, "to")?;
    let password = required_text(&value, "password")?;
    let server = required_text(&value, "server")?;
    Ok(Config { local_rss, remote_rss, subject, from, to, password, server })
}

} // verus!
