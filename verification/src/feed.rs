//! A feed document: the bytes as they were retrieved, and the entries that
//! the feed parser reads from them.

use vstd::prelude::*;
use vstd::utf8::{decode_utf8, valid_utf8};
use crate::diff::{diff_items, diff_spec};
use crate::error::{ErrorKind, MyError};
use crate::item::{items_view, Item, ItemView};

verus! {

/// `rss::Error`, carried from the parser to the error of a run.
#[verifier::external_type_specification]
#[verifier::external_body]
pub struct ExFeedError(rss::Error);

/// The entries that the feed parser reads from `body`, in document order, or
/// `None` where it rejects `body`.
pub uninterp spec fn feed_items(body: Seq<char>) -> Option<Seq<ItemView>>;

/// Reads `bytes` as text with `std::str::from_utf8`: the text that the
/// bytes encode in UTF-8, or `None` where they encode none.
#[verifier::external_body]
fn utf8_text(bytes: &[u8]) -> (r: Option<&str>)
    ensures
        match r {
            Some(text) => valid_utf8(bytes@) && text@ == decode_utf8(bytes@),
            None => !valid_utf8(bytes@),
        },
{
    std::str::from_utf8(bytes).ok()
}

/// The cause given for a document that is no text.
pub const NOT_UTF8: &'static str = "the document is not valid UTF-8";

/// The entries of the document that `raw` holds, or `None` where `raw` is
/// no text in UTF-8 or the parser rejects the text.
pub open spec fn feed_of(raw: Seq<u8>) -> Option<Seq<ItemView>> {
    if valid_utf8(raw) {
        feed_items(decode_utf8(raw))
    } else {
        None
    }
}

/// Parses `body` with `rss::Channel::from_str` and hands out the five
/// presentation fields of each entry of the channel, in the channel's order.
/// The contract only gives the outcome its name, `feed_items`: the parser
/// reads nothing but `body`.
#[verifier::external_body]
fn parse_channel(body: &str) -> (r: Result<Vec<Item>, rss::Error>)
    ensures
        match r {
            Ok(items) => feed_items(body@) == Some(items_view(items@)),
            Err(_) => feed_items(body@) is None,
        },
{
    let channel = body.parse::<rss::Channel>()?;
    Ok(
        channel.into_items().into_iter().map(
            |entry| Item {
                title: entry.title,
                link: entry.link,
                description: entry.description,
                author: entry.author,
                pub_date: entry.pub_date,
            },
        ).collect(),
    )
}

/// The model of a document: its bytes and its entries.
pub ghost struct RssContextView {
    pub raw: Seq<u8>,
    pub items: Seq<ItemView>,
}

/// A parsed feed document that keeps the bytes it was parsed from, so that
/// they can be stored again exactly as they came.
#[derive(Debug)]
pub struct RssContext {
    raw: Vec<u8>,
    items: Vec<Item>,
}

impl View for RssContext {
    type V = RssContextView;

    closed spec fn view(&self) -> RssContextView {
        RssContextView { raw: self.raw@, items: items_view(self.items@) }
    }
}

impl RssContext {
    /// The entries are those that the parser reads from the bytes.
    pub open spec fn wf(&self) -> bool {
        feed_of(self@.raw) == Some(self@.items)
    }

    /// Parses `body`. A body that is no text in UTF-8, or that the parser
    /// rejects, gives an error of the kind `on_reject`; its cause is
    /// `NOT_UTF8` or the parser's message.
    pub fn parse(body: Vec<u8>, on_reject: ErrorKind) -> (r: Result<RssContext, MyError>)
        ensures
            match r {
                Ok(doc) => doc.wf() && doc@.raw == body@,
                Err(e) => feed_of(body@) is None && e.kind() == on_reject && (!valid_utf8(body@)
                    ==> e.spec_cause() == NOT_UTF8@),
            },
    {
        let parsed = match utf8_text(body.as_slice()) {
            Some(text) => parse_channel(text),
            None => {
                return Err(MyError::new(on_reject, NOT_UTF8.to_owned()));
            },
        };
        match parsed {
            Ok(items) => Ok(RssContext { raw: body, items }),
            Err(cause) => Err(MyError::new(on_reject, cause.to_string())),
        }
    }

    /// The document for a body that was retrieved from the remote feed.
    /// A body that is no well-formed feed is a `ParseError`.
    pub fn from_fetched(body: Vec<u8>) -> (r: Result<RssContext, MyError>)
        ensures
            match r {
                Ok(doc) => doc.wf() && doc@.raw == body@,
                Err(e) => feed_of(body@) is None && e.kind() == ErrorKind::Parse && (!valid_utf8(
                    body@,
                ) ==> e.spec_cause() == NOT_UTF8@),
            },
    {
        RssContext::parse(body, ErrorKind::Parse)
    }

    /// The document for the bytes of a stored snapshot. A snapshot that is
    /// no well-formed feed is a `StorageError`.
    pub fn from_stored(body: Vec<u8>) -> (r: Result<RssContext, MyError>)
        ensures
            match r {
                Ok(doc) => doc.wf() && doc@.raw == body@,
                Err(e) => feed_of(body@) is None && e.kind() == ErrorKind::Storage && (!valid_utf8(
                    body@,
                ) ==> e.spec_cause() == NOT_UTF8@),
            },
    {
        RssContext::parse(body, ErrorKind::Storage)
    }

    /// The bytes of the document, exactly as they were retrieved.
    pub fn raw(&self) -> (bytes: &Vec<u8>)
        ensures
            bytes@ == self@.raw,
    {
        &self.raw
    }

    /// The entries of the document, in document order.
    pub fn items(&self) -> (items: &Vec<Item>)
        ensures
            items_view(items@) == self@.items,
    {
        &self.items
    }

    /// The entries of `ctx_a` that equal no entry of `ctx_b`, in the order
    /// of `ctx_a`. Entries that only `ctx_b` holds are not reported.
    pub fn diff(ctx_a: &RssContext, ctx_b: &RssContext) -> (fresh: Vec<Item>)
        ensures
            items_view(fresh@) == diff_spec(ctx_a@.items, ctx_b@.items),
    {
        diff_items(&ctx_a.items, &ctx_b.items)
    }
}

} // verus!
