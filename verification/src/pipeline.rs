//! The order of a run: what is asked for next, given what came back, and
//! when the snapshot may be replaced.
//!
//! The library does no reading, fetching, rendering, sending or writing of
//! its own. A run is a dialogue: [`begin`] and [`step`] hand out an
//! [`Action`], the caller carries it out and hands back the [`Event`] that
//! tells how it went.

use vstd::prelude::*;
use crate::config::{config_in, load_config, Config};
use crate::diff::diff_spec;
use crate::error::{ErrorKind, MyError};
use crate::feed::{feed_of, RssContext};
use crate::notify::{
    compose_mail, composed, has_template, render, Delivery, RenderRequest, MAIL_TEMPLATE,
    NO_TEMPLATE,
};
use crate::transform::{convert_to_ser_items, presents_items, ser_items_view, SerItem};

verus! {

/// Where the configuration is found.
pub const CONFIG_PATH: &'static str = "bbsmon.json";

/// The directory below which the templates are found.
pub const TEMPLATE_DIR: &'static str = "templates";

/// The cause given where the server of the feed answers with a status that
/// is no success.
pub const BAD_STATUS: &'static str = "the server answered with a status that is no success";

/// The cause given where an answer belongs to no request that is open.
pub const UNEXPECTED_ANSWER: &'static str = "the answer belongs to no open request";

/// How a run ended well.
#[derive(Clone, Copy, Debug, PartialEq, Eq, Structural)]
pub enum Ending {
    /// The feed holds nothing that the snapshot lacks: nothing was sent
    /// and nothing was written.
    NoNewItems,
    /// The new entries were sent and the snapshot was replaced.
    Persisted,
}

/// What the server of the feed answered: the status of the answer, and
/// its body exactly as it came.
#[derive(Debug)]
pub struct Response {
    pub status: u16,
    pub body: Vec<u8>,
}

/// What the template engine made of a request: the body, and the time at
/// which it was made, in seconds since the start of 1970, with which the
/// message is dated.
#[derive(Debug)]
pub struct Rendering {
    pub body: String,
    pub at: u64,
}

/// Whether a status is a success: one of the two hundreds.
pub open spec fn is_success(status: u16) -> bool {
    200 <= status < 300
}

/// How far a run has come.
#[derive(Debug)]
pub enum State {
    /// Nothing is known yet; the text of the configuration is awaited.
    Initial,
    /// The configuration is read; the body of the remote feed is awaited.
    ConfigLoaded { config: Config },
    /// The remote feed is parsed; the bytes of the snapshot are awaited.
    Fetched { config: Config, fetched: RssContext },
    /// There are new entries; the templates are awaited.
    Diffed { config: Config, fetched: RssContext, payload: Vec<SerItem> },
    /// The template is resolved; the rendered body is awaited.
    Rendering { config: Config, fetched: RssContext },
    /// The message is handed out; the outcome of the delivery is awaited.
    Notifying { config: Config, fetched: RssContext },
    /// The message is delivered; the outcome of the write is awaited.
    Persisting,
    /// The run ended with nothing to report.
    NoOp,
    /// The run ended with the snapshot replaced.
    Persisted,
    /// The run was given up.
    Failed { kind: ErrorKind },
}

/// What the caller is asked to do next.
#[derive(Debug)]
pub enum Action {
    /// Read the text of the configuration.
    ReadConfig { path: String },
    /// Retrieve the body of the remote feed.
    Fetch { url: String },
    /// Read the bytes of the snapshot.
    ReadSnapshot { path: String },
    /// Read every file below `directory` as a template: its path from
    /// there as its name, and its text.
    ReadTemplates { directory: String },
    /// Have the template engine render what `request` asks for.
    Render { request: RenderRequest },
    /// Deliver the message, once.
    Send { delivery: Delivery },
    /// Replace the snapshot by `content`.
    WriteSnapshot { path: String, content: Vec<u8> },
    /// End the run as a success.
    Finish { ending: Ending },
    /// End the run as a failure.
    Abort { error: MyError },
    /// The run has ended before: there is nothing to do.
    Halt,
}

/// How the last action went.
#[derive(Debug)]
pub enum Event {
    /// The text of the configuration, or why it could not be read.
    ConfigRead(Result<String, String>),
    /// The answer of the server of the remote feed, or why there is none.
    Fetched(Result<Response, String>),
    /// The bytes of the snapshot, or why they could not be read.
    SnapshotRead(Result<Vec<u8>, String>),
    /// The templates, or why they could not be read.
    TemplatesRead(Result<Vec<(String, String)>, String>),
    /// The rendered body, or why the engine gave none.
    Rendered(Result<Rendering, String>),
    /// Whether the message was delivered.
    Sent(Result<(), String>),
    /// Whether the snapshot was written.
    SnapshotWritten(Result<(), String>),
}

impl State {
    /// The document that a state holds is the parse of its own bytes.
    pub open spec fn wf(&self) -> bool {
        match self {
            State::Fetched { fetched, .. } => fetched.wf(),
            State::Diffed { fetched, .. } => fetched.wf(),
            State::Rendering { fetched, .. } => fetched.wf(),
            State::Notifying { fetched, .. } => fetched.wf(),
            _ => true,
        }
    }

    /// The run has ended.
    pub open spec fn is_final(&self) -> bool {
        self is NoOp || self is Persisted || self is Failed
    }
}

/// The run is given up with an error of the given kind.
pub open spec fn aborts_with(next: State, act: Action, kind: ErrorKind) -> bool {
    &&& next == (State::Failed { kind })
    &&& act matches Action::Abort { error } && error.kind() == kind
}

/// The run is given up with an error of the given kind and cause.
pub open spec fn aborts_from(next: State, act: Action, kind: ErrorKind, cause: Seq<char>) -> bool {
    &&& next == (State::Failed { kind })
    &&& act matches Action::Abort { error } && error.kind() == kind && error.spec_cause() == cause
}

/// What follows the text of the configuration.
pub open spec fn after_initial(event: Event, next: State, act: Action) -> bool {
    match event {
        Event::ConfigRead(Ok(text)) => match config_in(text@) {
            Some(wanted) => {
                &&& next matches State::ConfigLoaded { config } && config@ == wanted
                &&& act matches Action::Fetch { url } && url@ == wanted.remote_rss
            },
            None => aborts_with(next, act, ErrorKind::Config),
        },
        Event::ConfigRead(Err(cause)) => aborts_from(next, act, ErrorKind::Config, cause@),
        _ => aborts_from(next, act, ErrorKind::Config, UNEXPECTED_ANSWER@),
    }
}

/// What follows the answer of the server of the feed: a status that is no
/// success is a failure of the retrieval, whatever the body; a body that
/// is no feed is a failure of the parse.
pub open spec fn after_config_loaded(config: Config, event: Event, next: State, act: Action)
    -> bool {
    match event {
        Event::Fetched(Ok(response)) => if !is_success(response.status) {
            aborts_from(next, act, ErrorKind::Network, BAD_STATUS@)
        } else {
            match feed_of(response.body@) {
                Some(_) => {
                    &&& next matches State::Fetched { config: kept, fetched } && kept == config
                        && fetched.wf() && fetched@.raw == response.body@
                    &&& act matches Action::ReadSnapshot { path } && path@ == config@.local_rss
                },
                None => aborts_with(next, act, ErrorKind::Parse),
            }
        },
        Event::Fetched(Err(cause)) => aborts_from(next, act, ErrorKind::Network, cause@),
        _ => aborts_from(next, act, ErrorKind::Network, UNEXPECTED_ANSWER@),
    }
}

/// What follows the bytes of the snapshot: the end of the run where the
/// snapshot holds every entry of the feed, the new entries made ready for
/// presentation otherwise.
pub open spec fn after_fetched(
    config: Config,
    fetched: RssContext,
    event: Event,
    next: State,
    act: Action,
) -> bool {
    match event {
        Event::SnapshotRead(Ok(content)) => match feed_of(content@) {
            Some(stored) => {
                let fresh = diff_spec(fetched@.items, stored);
                if fresh.len() == 0 {
                    &&& next == State::NoOp
                    &&& act == (Action::Finish { ending: Ending::NoNewItems })
                } else {
                    &&& next matches State::Diffed { config: kept, fetched: held, payload }
                        && kept == config && held == fetched && presents_items(
                        fresh,
                        ser_items_view(payload@),
                    )
                    &&& act matches Action::ReadTemplates { directory } && directory@
                        == TEMPLATE_DIR@
                }
            },
            None => aborts_with(next, act, ErrorKind::Storage),
        },
        Event::SnapshotRead(Err(cause)) => aborts_from(next, act, ErrorKind::Storage, cause@),
        _ => aborts_from(next, act, ErrorKind::Storage, UNEXPECTED_ANSWER@),
    }
}

/// What follows the templates: the request to render `mail.html` with the
/// records of the payload, or a `RenderError` where the templates hold none
/// under that name.
pub open spec fn after_diffed(
    config: Config,
    fetched: RssContext,
    payload: Vec<SerItem>,
    event: Event,
    next: State,
    act: Action,
) -> bool {
    match event {
        Event::TemplatesRead(Ok(templates)) => if has_template(templates@, MAIL_TEMPLATE@) {
            &&& next matches State::Rendering { config: kept, fetched: held } && kept == config
                && held == fetched
            &&& act matches Action::Render { request } && request.asks_for(
                templates@,
                ser_items_view(payload@),
            )
        } else {
            aborts_from(next, act, ErrorKind::Render, NO_TEMPLATE@)
        },
        Event::TemplatesRead(Err(cause)) => aborts_from(next, act, ErrorKind::Render, cause@),
        _ => aborts_from(next, act, ErrorKind::Render, UNEXPECTED_ANSWER@),
    }
}

/// What follows a rendering: the message that carries the rendered body,
/// dated with the time of the rendering, is handed out for delivery; a
/// rendering that failed is a `RenderError` with the engine's message, and
/// a message that cannot be built is a `MailError`.
pub open spec fn after_rendered(
    config: Config,
    fetched: RssContext,
    rendered: Result<Rendering, String>,
    next: State,
    act: Action,
) -> bool {
    match rendered {
        Ok(rendering) => match composed(config@, rendering.body@, rendering.at) {
            Ok(bytes) => {
                &&& next matches State::Notifying { config: kept, fetched: held } && kept == config
                    && held == fetched
                &&& act matches Action::Send { delivery } && delivery.follows(config@)
                    && delivery.message@ == bytes
            },
            Err(text) => aborts_from(next, act, ErrorKind::Mail, text),
        },
        Err(cause) => aborts_from(next, act, ErrorKind::Render, cause@),
    }
}

/// What follows the answer of the template engine.
pub open spec fn after_rendering(
    config: Config,
    fetched: RssContext,
    event: Event,
    next: State,
    act: Action,
) -> bool {
    match event {
        Event::Rendered(rendered) => after_rendered(config, fetched, rendered, next, act),
        _ => aborts_from(next, act, ErrorKind::Render, UNEXPECTED_ANSWER@),
    }
}

/// What follows the delivery: the snapshot is replaced by the bytes of the
/// fetched document, and only where the delivery succeeded.
pub open spec fn after_notifying(
    config: Config,
    fetched: RssContext,
    event: Event,
    next: State,
    act: Action,
) -> bool {
    match event {
        Event::Sent(Ok(_)) => {
            &&& next == State::Persisting
            &&& act matches Action::WriteSnapshot { path, content } && path@
                == config@.local_rss && content@ == fetched@.raw
        },
        Event::Sent(Err(cause)) => aborts_from(next, act, ErrorKind::Mail, cause@),
        _ => aborts_from(next, act, ErrorKind::Mail, UNEXPECTED_ANSWER@),
    }
}

/// What follows the write.
pub open spec fn after_persisting(event: Event, next: State, act: Action) -> bool {
    match event {
        Event::SnapshotWritten(Ok(_)) => {
            &&& next == State::Persisted
            &&& act == (Action::Finish { ending: Ending::Persisted })
        },
        Event::SnapshotWritten(Err(cause)) => aborts_from(next, act, ErrorKind::Storage, cause@),
        _ => aborts_from(next, act, ErrorKind::Storage, UNEXPECTED_ANSWER@),
    }
}

/// The rule of a run: which state and action may follow `event` in `state`.
/// An answer that belongs to no open request is a failure of the request
/// that is open; a run that has ended stays as it is.
pub open spec fn step_rule(state: State, event: Event, next: State, act: Action) -> bool {
    match state {
        State::Initial => after_initial(event, next, act),
        State::ConfigLoaded { config } => after_config_loaded(config, event, next, act),
        State::Fetched { config, fetched } => after_fetched(config, fetched, event, next, act),
        State::Diffed { config, fetched, payload } => after_diffed(
            config,
            fetched,
            payload,
            event,
            next,
            act,
        ),
        State::Rendering { config, fetched } => after_rendering(config, fetched, event, next, act),
        State::Notifying { config, fetched } => after_notifying(
            config,
            fetched,
            event,
            next,
            act,
        ),
        State::Persisting => after_persisting(event, next, act),
        _ => next == state && act is Halt,
    }
}

/// Gives a run up.
fn abort(error: MyError) -> (r: (State, Action))
    ensures
        aborts_from(r.0, r.1, error.kind(), error.spec_cause()),
{
    (State::Failed { kind: error.kind() }, Action::Abort { error })
}

/// Gives a run up over an answer that belongs to no open request.
fn abort_unexpected(kind: ErrorKind) -> (r: (State, Action))
    ensures
        aborts_from(r.0, r.1, kind, UNEXPECTED_ANSWER@),
{
    abort(MyError::new(kind, UNEXPECTED_ANSWER.to_owned()))
}

/// The new entries of `fetched` over `stored`, made ready for presentation;
/// none where the snapshot holds every entry of the feed.
pub fn new_items(fetched: &RssContext, stored: &RssContext) -> (payload: Vec<SerItem>)
    ensures
        presents_items(diff_spec(fetched@.items, stored@.items), ser_items_view(payload@)),
{
    let fresh = RssContext::diff(fetched, stored);
    convert_to_ser_items(&fresh)
}

/// The new entries of the remote feed over the snapshot, from the bytes of
/// the snapshot and the body that was retrieved, with the parsed remote
/// document. A body that is no feed is a `ParseError`; a snapshot that is
/// no feed is a `StorageError`.
pub fn fetch_diff_items(local: Vec<u8>, remote: Vec<u8>) -> (r: Result<
    (Vec<SerItem>, RssContext),
    MyError,
>)
    ensures
        match r {
            Ok((payload, fetched)) => {
                &&& fetched.wf() && fetched@.raw == remote@
                &&& feed_of(local@) is Some
                &&& presents_items(
                    diff_spec(fetched@.items, feed_of(local@)->0),
                    ser_items_view(payload@),
                )
            },
            Err(e) => if feed_of(remote@) is None {
                e.kind() == ErrorKind::Parse
            } else {
                feed_of(local@) is None && e.kind() == ErrorKind::Storage
            },
        },
{
    let fetched = RssContext::from_fetched(remote)?;
    let stored = RssContext::from_stored(local)?;
    let payload = new_items(&fetched, &stored);
    Ok((payload, fetched))
}

/// What a run does with a composed message: it hands the message out for
/// delivery, or gives up with the error that kept it from being made.
pub fn announce(config: Config, fetched: RssContext, composed: Result<Delivery, MyError>) -> (r: (
    State,
    Action,
))
    ensures
        match composed {
            Ok(delivery) => r.0 == (State::Notifying { config, fetched }) && r.1 == (Action::Send {
                delivery,
            }),
            Err(error) => r.0 == (State::Failed { kind: error.kind() }) && r.1 == (Action::Abort {
                error,
            }),
        },
{
    match composed {
        Ok(delivery) => (State::Notifying { config, fetched }, Action::Send { delivery }),
        Err(error) => (State::Failed { kind: error.kind() }, Action::Abort { error }),
    }
}

/// What a run does with the answer of the template engine: it builds the
/// message around the rendered body and hands it out for delivery; after a
/// rendering that failed it gives up with that failure, and nothing is
/// sent.
pub fn on_rendered(config: Config, fetched: RssContext, rendered: Result<Rendering, String>) -> (r:
    (State, Action))
    ensures
        after_rendered(config, fetched, rendered, r.0, r.1),
        rendered is Err ==> r.1 is Abort,
{
    match rendered {
        Ok(rendering) => {
            let composed = compose_mail(&config, rendering.body.as_str(), rendering.at);
            announce(config, fetched, composed)
        },
        Err(cause) => abort(MyError::RenderError(cause)),
    }
}

/// The start of a run: the configuration is asked for.
pub fn begin() -> (r: (State, Action))
    ensures
        r.0 == State::Initial,
        r.1 matches Action::ReadConfig { path } && path@ == CONFIG_PATH@,
{
    (State::Initial, Action::ReadConfig { path: CONFIG_PATH.to_owned() })
}

/// One step of a run: takes the answer to the last action and gives the
/// next state with the next action, as `step_rule` says. A message is
/// handed out only in answer to a rendering that gave a body, and the
/// snapshot is written only in answer to a delivery that succeeded.
pub fn step(state: State, event: Event) -> (r: (State, Action))
    ensures
        step_rule(state, event, r.0, r.1),
        state.wf() ==> r.0.wf(),
{
    match state {
        State::Initial => match event {
            Event::ConfigRead(Ok(text)) => match load_config(text.as_str()) {
                Ok(config) => {
                    let url = config.remote_rss.clone();
                    (State::ConfigLoaded { config }, Action::Fetch { url })
                },
                Err(error) => abort(error),
            },
            Event::ConfigRead(Err(cause)) => abort(MyError::ConfigError(cause)),
            _ => abort_unexpected(ErrorKind::Config),
        },
        State::ConfigLoaded { config } => match event {
            Event::Fetched(Ok(response)) => {
                if response.status < 200 || response.status >= 300 {
                    return abort(MyError::NetworkError(BAD_STATUS.to_owned()));
                }
                match RssContext::from_fetched(response.body) {
                    Ok(fetched) => {
                        let path = config.local_rss.clone();
                        (State::Fetched { config, fetched }, Action::ReadSnapshot { path })
                    },
                    Err(error) => abort(error),
                }
            },
            Event::Fetched(Err(cause)) => abort(MyError::NetworkError(cause)),
            _ => abort_unexpected(ErrorKind::Network),
        },
        State::Fetched { config, fetched } => match event {
            Event::SnapshotRead(Ok(content)) => match RssContext::from_stored(content) {
                Ok(stored) => {
                    let payload = new_items(&fetched, &stored);
                    if payload.len() == 0 {
                        (State::NoOp, Action::Finish { ending: Ending::NoNewItems })
                    } else {
                        let directory = TEMPLATE_DIR.to_owned();
                        (
                            State::Diffed { config, fetched, payload },
                            Action::ReadTemplates { directory },
                        )
                    }
                },
                Err(error) => abort(error),
            },
            Event::SnapshotRead(Err(cause)) => abort(MyError::StorageError(cause)),
            _ => abort_unexpected(ErrorKind::Storage),
        },
        State::Diffed { config, fetched, payload } => match event {
            Event::TemplatesRead(Ok(templates)) => match render(templates, &payload) {
                Ok(request) => (State::Rendering { config, fetched }, Action::Render { request }),
                Err(error) => abort(error),
            },
            Event::TemplatesRead(Err(cause)) => abort(MyError::RenderError(cause)),
            _ => abort_unexpected(ErrorKind::Render),
        },
        State::Rendering { config, fetched } => match event {
            Event::Rendered(rendered) => on_rendered(config, fetched, rendered),
            _ => abort_unexpected(ErrorKind::Render),
        },
        State::Notifying { config, fetched } => match event {
            Event::Sent(Ok(_)) => {
                let path = config.local_rss.clone();
                let content = fetched.raw().clone();
                (State::Persisting, Action::WriteSnapshot { path, content })
            },
            Event::Sent(Err(cause)) => abort(MyError::MailError(cause)),
            _ => abort_unexpected(ErrorKind::Mail),
        },
        State::Persisting => match event {
            Event::SnapshotWritten(Ok(_)) => (
                State::Persisted,
                Action::Finish { ending: Ending::Persisted },
            ),
            Event::SnapshotWritten(Err(cause)) => abort(MyError::StorageError(cause)),
            _ => abort_unexpected(ErrorKind::Storage),
        },
        State::NoOp => (State::NoOp, Action::Halt),
        State::Persisted => (State::Persisted, Action::Halt),
        State::Failed { kind } => (State::Failed { kind }, Action::Halt),
    }
}

} // verus!
