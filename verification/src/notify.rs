//! The notification: what the template engine is asked to render, and the
//! message that carries the rendered body.

use vstd::prelude::*;
use crate::config::{Config, ConfigView};
use crate::error::{ErrorKind, MyError};
use crate::item::{clone_text, text_view, ItemView};
use crate::transform::{ser_items_view, SerItem};

verus! {

/// The template that lays out the notification.
pub const MAIL_TEMPLATE: &'static str = "mail.html";

/// The name under which a template finds the entries.
pub const ITEMS_SLOT: &'static str = "items";

/// The port on which the mail server takes submissions.
pub const MAIL_PORT: u16 = 587;

/// The name shown beside the recipient's address.
pub const RECIPIENT_NAME: &'static str = "BBS Notification Receiver";

/// The content type of the notification.
pub const CONTENT_TYPE: &'static str = "text/html; charset=UTF-8";

/// The first second that a message can no longer be dated with: the start
/// of the year 10000, in seconds since the start of 1970.
pub const DATE_LIMIT: u64 = 253_402_300_800;

/// The cause given where the templates hold none under `mail.html`.
pub const NO_TEMPLATE: &'static str = "the template mail.html is not among the templates";

/// The cause given where a message cannot be dated.
pub const DATE_OUT_OF_RANGE: &'static str = "the date of the message is past the year 9999";

/// Whether `text` is an address that lettre accepts.
pub uninterp spec fn is_mail_address(text: Seq<char>) -> bool;

/// What the message builder makes of subject, sender, recipient, the name
/// shown for the recipient, content type, body and date: the bytes of the
/// message, headers and body, as they go over the wire, or the text of the
/// builder's refusal.
pub uninterp spec fn mail_built(
    subject: Seq<char>,
    from: Seq<char>,
    to: Seq<char>,
    to_name: Seq<char>,
    content_type: Seq<char>,
    body: Seq<char>,
    date: u64,
) -> Result<Seq<u8>, Seq<char>>;

/// Builds a message with `lettre::Message::builder`: the date, `date`
/// seconds after the start of 1970, the subject, the sender `from` and the
/// recipient `to`, each read with the `FromStr` of `lettre::Address`, the
/// recipient shown as `to_name`, the content type, read with
/// `lettre::message::header::ContentType::parse`, and the body. It hands
/// out the bytes that `lettre::Message::formatted` gives, or the text of the
/// first error. With the date given, the builder reads nothing but its
/// arguments: the contract names the outcome, `mail_built`, and states that
/// no message is built from a sender or recipient that is no address.
/// lettre cannot write a date from the year 10000 on.
#[verifier::external_body]
fn build_message(
    subject: &str,
    from: &str,
    to: &str,
    to_name: &str,
    content_type: &str,
    body: &str,
    date: u64,
) -> (r: Result<Vec<u8>, String>)
    requires
        date < DATE_LIMIT,
    ensures
        built_view(r) == mail_built(subject@, from@, to@, to_name@, content_type@, body@, date),
        r is Ok ==> (is_mail_address(from@) && is_mail_address(to@)),
{
    let sender = from.parse::<lettre::Address>().map_err(|e| e.to_string())?;
    let recipient = to.parse::<lettre::Address>().map_err(|e| e.to_string())?;
    let kind = lettre::message::header::ContentType::parse(content_type).map_err(
        |e| e.to_string(),
    )?;
    let message = lettre::Message::builder()
        .date(std::time::UNIX_EPOCH + std::time::Duration::from_secs(date))
        .subject(subject)
        .from(lettre::message::Mailbox::new(None, sender))
        .to(lettre::message::Mailbox::new(Some(to_name.to_owned()), recipient))
        .header(kind)
        .body(body.to_owned())
        .map_err(|e| e.to_string())?;
    Ok(message.formatted())
}

/// The model of a builder's answer.
pub open spec fn built_view(built: Result<Vec<u8>, String>) -> Result<Seq<u8>, Seq<char>> {
    match built {
        Ok(bytes) => Ok(bytes@),
        Err(text) => Err(text@),
    }
}

/// Whether `sources`, pairs of a template's name and its text, hold a
/// template under `name`.
pub open spec fn has_template(sources: Seq<(String, String)>, name: Seq<char>) -> bool {
    exists|i: int| 0 <= i < sources.len() && (#[trigger] sources[i]).0@ == name
}

/// Whether `sources` hold a template under `name`.
pub fn find_template(sources: &Vec<(String, String)>, name: &str) -> (found: bool)
    ensures
        found == has_template(sources@, name@),
{
    let wanted = name.to_owned();
    let mut i: usize = 0;
    while i < sources.len()
        invariant
            i <= sources.len(),
            wanted@ == name@,
            forall|k: int| 0 <= k < i ==> (#[trigger] sources@[k]).0@ != name@,
        decreases sources.len() - i,
    {
        if sources[i].0 == wanted {
            return true;
        }
        i += 1;
    }
    false
}

/// The model of a record: each field's name with its optional text.
pub open spec fn record_view(row: Seq<(String, Option<String>)>) -> Seq<
    (Seq<char>, Option<Seq<char>>),
> {
    row.map_values(|field: (String, Option<String>)| (field.0@, text_view(field.1)))
}

/// The record of an entry: its five fields under their names.
pub open spec fn record_of(item: ItemView) -> Seq<(Seq<char>, Option<Seq<char>>)> {
    seq![
        ("title"@, item.title),
        ("link"@, item.link),
        ("description"@, item.description),
        ("author"@, item.author),
        ("pub_date"@, item.pub_date),
    ]
}

/// Whether `rows` are the records of `items`, one for one and in order.
pub open spec fn records_of(rows: Seq<Vec<(String, Option<String>)>>, items: Seq<ItemView>) -> bool {
    &&& rows.len() == items.len()
    &&& forall|i: int| 0 <= i < items.len() ==> record_view(#[trigger] rows[i]@) == record_of(items[i])
}

/// The record that a template sees for `item`.
pub fn item_record(item: &SerItem) -> (row: Vec<(String, Option<String>)>)
    ensures
        record_view(row@) == record_of(item@),
{
    let mut row: Vec<(String, Option<String>)> = Vec::new();
    row.push(("title".to_owned(), clone_text(&item.title)));
    row.push(("link".to_owned(), clone_text(&item.link)));
    row.push(("description".to_owned(), clone_text(&item.description)));
    row.push(("author".to_owned(), clone_text(&item.author)));
    row.push(("pub_date".to_owned(), clone_text(&item.pub_date)));
    assert(record_view(row@) =~= record_of(item@));
    row
}

/// The records that a template sees for `items`, one for one and in order.
pub fn item_records(items: &Vec<SerItem>) -> (rows: Vec<Vec<(String, Option<String>)>>)
    ensures
        records_of(rows@, ser_items_view(items@)),
{
    let mut rows: Vec<Vec<(String, Option<String>)>> = Vec::new();
    let mut i: usize = 0;
    while i < items.len()
        invariant
            i <= items.len(),
            rows@.len() == i,
            forall|k: int|
                0 <= k < i ==> record_view(#[trigger] rows@[k]@) == record_of(items@[k]@),
        decreases items.len() - i,
    {
        rows.push(item_record(&items[i]));
        i += 1;
    }
    rows
}

/// What the template engine is asked for: to load `templates`, pairs of a
/// template's name and its text, and to render the one named `template`
/// with `rows` bound under `slot`, each row a record of named fields.
#[derive(Debug)]
pub struct RenderRequest {
    pub templates: Vec<(String, String)>,
    pub template: String,
    pub slot: String,
    pub rows: Vec<Vec<(String, Option<String>)>>,
}

impl RenderRequest {
    /// The request is for `mail.html` among `templates`, with the records
    /// of `items` bound under `items`.
    pub open spec fn asks_for(&self, templates: Seq<(String, String)>, items: Seq<ItemView>) -> bool {
        &&& self.templates@ == templates
        &&& self.template@ == MAIL_TEMPLATE@
        &&& self.slot@ == ITEMS_SLOT@
        &&& records_of(self.rows@, items)
    }
}

/// The library's part of rendering the body of the notification: it
/// resolves the template `mail.html` among `templates` and lays out what
/// the engine is to be given, the entries as records under `items`. Where
/// `templates` hold none under `mail.html`, that is a `RenderError`.
pub fn render(templates: Vec<(String, String)>, items: &Vec<SerItem>) -> (r: Result<
    RenderRequest,
    MyError,
>)
    ensures
        match r {
            Ok(request) => has_template(templates@, MAIL_TEMPLATE@) && request.asks_for(
                templates@,
                ser_items_view(items@),
            ),
            Err(e) => !has_template(templates@, MAIL_TEMPLATE@) && e.kind() == ErrorKind::Render
                && e.spec_cause() == NO_TEMPLATE@,
        },
{
    if find_template(&templates, MAIL_TEMPLATE) {
        Ok(
            RenderRequest {
                templates,
                template: MAIL_TEMPLATE.to_owned(),
                slot: ITEMS_SLOT.to_owned(),
                rows: item_records(items),
            },
        )
    } else {
        Err(MyError::RenderError(NO_TEMPLATE.to_owned()))
    }
}

/// How the account proves who it is to the mail server.
#[derive(Clone, Copy, Debug, PartialEq, Eq, Structural)]
pub enum Mechanism {
    /// Name and password in one answer.
    Plain,
    /// Name and password, each asked for in turn.
    Login,
    /// A token in place of the password.
    Xoauth2,
}

/// A message that is ready to be handed to the mail server, with what the
/// connection needs.
#[derive(Debug)]
pub struct Delivery {
    /// The host of the mail server.
    pub server: String,
    /// The port of the mail server.
    pub port: u16,
    /// The name of the mail account.
    pub username: String,
    /// The credential of the mail account.
    pub password: String,
    /// How the account proves who it is.
    pub mechanism: Mechanism,
    /// The address the message is sent from.
    pub sender: String,
    /// The address the message is sent to.
    pub recipient: String,
    /// The message, headers and body, as it goes over the wire.
    pub message: Vec<u8>,
}

impl Delivery {
    /// The delivery goes to the server of `config` on the submission port,
    /// under the account of the sender with the plain mechanism, from the
    /// sender to the recipient.
    pub open spec fn follows(&self, config: ConfigView) -> bool {
        &&& self.server@ == config.server
        &&& self.port == MAIL_PORT
        &&& self.username@ == config.from
        &&& self.password@ == config.password
        &&& self.mechanism == Mechanism::Plain
        &&& self.sender@ == config.from
        &&& self.recipient@ == config.to
    }
}

/// What is made of the configuration `c`, the body `content` and the date:
/// the bytes of the message that the builder makes of the subject, the
/// sender and the recipient of `c`, the name shown for the recipient, the
/// content type of an HTML body, `content` and the date; or the text of the
/// cause for which there is none.
pub open spec fn composed(c: ConfigView, content: Seq<char>, date: u64) -> Result<
    Seq<u8>,
    Seq<char>,
> {
    if date >= DATE_LIMIT {
        Err(DATE_OUT_OF_RANGE@)
    } else {
        mail_built(c.subject, c.from, c.to, RECIPIENT_NAME@, CONTENT_TYPE@, content, date)
    }
}

/// What a run makes of the message builder's answer: a delivery of the
/// built bytes as `c` directs it, or a `MailError` with the builder's text.
pub fn delivery_outcome(c: &Config, built: Result<Vec<u8>, String>) -> (r: Result<
    Delivery,
    MyError,
>)
    ensures
        match built {
            Ok(bytes) => r is Ok && r->Ok_0.follows(c@) && r->Ok_0.message@ == bytes@,
            Err(text) => r is Err && r->Err_0.kind() == ErrorKind::Mail && r->Err_0.spec_cause()
                == text@,
        },
{
    match built {
        Ok(bytes) => Ok(
            Delivery {
                server: c.server.clone(),
                port: MAIL_PORT,
                username: c.from.clone(),
                password: c.password.clone(),
                mechanism: Mechanism::Plain,
                sender: c.from.clone(),
                recipient: c.to.clone(),
                message: bytes,
            },
        ),
        Err(text) => Err(MyError::MailError(text)),
    }
}

/// Builds the notification message: subject, sender and recipient from
/// `c`, the content type of an HTML body, `content` as the body, dated
/// `date` seconds after the start of 1970. The delivery carries the bytes
/// that `composed` names and goes where `c` directs it. A date from the
/// year 10000 on, a sender or recipient that is no address, and any other
/// refusal of the builder, is a `MailError` with that cause.
pub fn compose_mail(c: &Config, content: &str, date: u64) -> (r: Result<Delivery, MyError>)
    ensures
        match composed(c@, content@, date) {
            Ok(bytes) => r is Ok && r->Ok_0.follows(c@) && r->Ok_0.message@ == bytes,
            Err(text) => r is Err && r->Err_0.kind() == ErrorKind::Mail && r->Err_0.spec_cause()
                == text,
        },
        r is Ok ==> is_mail_address(c@.from) && is_mail_address(c@.to),
{
    if date >= DATE_LIMIT {
        return Err(MyError::MailError(DATE_OUT_OF_RANGE.to_owned()));
    }
    let built = build_message(
        c.subject.as_str(),
        c.from.as_str(),
        c.to.as_str(),
        RECIPIENT_NAME,
        CONTENT_TYPE,
        content,
        date,
    );
    delivery_outcome(c, built)
}

/// The message does not depend on the password: two configurations that
/// differ in nothing else give the same bytes, or the same refusal.
pub proof fn lemma_message_leaves_password_out(
    first: ConfigView,
    second: ConfigView,
    content: Seq<char>,
    date: u64,
)
    requires
        first == (ConfigView { password: first.password, ..second }),
    ensures
        composed(first, content, date) == composed(second, content, date),
{
}

} // verus!
