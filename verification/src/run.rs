//! Whole runs: what holds of every sequence of steps that follows the rule.

use vstd::prelude::*;
use crate::diff::{diff_spec, lemma_diff_self_is_empty};
use crate::error::ErrorKind;
use crate::feed::feed_of;
use crate::notify::composed;
use crate::pipeline::{step_rule, Action, Event, State};

verus! {

/// A run: the states it went through from the initial one, the answers it
/// was given and the actions it asked for, each step following the rule.
pub open spec fn is_run(states: Seq<State>, events: Seq<Event>, actions: Seq<Action>) -> bool {
    &&& states.len() == events.len() + 1
    &&& actions.len() == events.len()
    &&& states[0] == State::Initial
    &&& forall|i: int|
        0 <= i < events.len() ==> step_rule(states[i], events[i], states[i + 1], #[trigger] actions[i])
}

/// The bytes of the snapshot after `actions` were carried out, in order, on
/// a snapshot that held `before`.
pub open spec fn snapshot_after(before: Seq<u8>, actions: Seq<Action>) -> Seq<u8>
    decreases actions.len(),
{
    if actions.len() == 0 {
        before
    } else {
        match actions.last() {
            Action::WriteSnapshot { content, .. } => content@,
            _ => snapshot_after(before, actions.drop_last()),
        }
    }
}

/// The delivery succeeded.
pub open spec fn is_delivered(event: Event) -> bool {
    event matches Event::Sent(Ok(_))
}

/// A write is asked for only in answer to a delivery that succeeded, while
/// the delivery is awaited; it is a write of the fetched bytes to the place
/// of the snapshot.
pub proof fn lemma_write_needs_delivery(state: State, event: Event, next: State, act: Action)
    requires
        step_rule(state, event, next, act),
        act is WriteSnapshot,
    ensures
        is_delivered(event),
        state matches State::Notifying { config, fetched } && act matches Action::WriteSnapshot {
            path,
            content,
        } && path@ == config@.local_rss && content@ == fetched@.raw,
{
}

/// A delivery that failed ends the run as a `MailError`, with nothing
/// written; and so does every other answer but a success while the
/// delivery is awaited.
pub proof fn lemma_failed_delivery_aborts(state: State, event: Event, next: State, act: Action)
    requires
        step_rule(state, event, next, act),
        state is Notifying,
        !is_delivered(event),
    ensures
        next == (State::Failed { kind: ErrorKind::Mail }),
        act is Abort,
{
}

/// A sequence of actions without a write leaves the snapshot as it was.
pub proof fn lemma_no_write_no_change(before: Seq<u8>, actions: Seq<Action>)
    requires
        forall|i: int| 0 <= i < actions.len() ==> !(#[trigger] actions[i] is WriteSnapshot),
    ensures
        snapshot_after(before, actions) == before,
    decreases actions.len(),
{
    if actions.len() > 0 {
        lemma_no_write_no_change(before, actions.drop_last());
    }
}

/// The snapshot is never advanced past a notification that was not
/// delivered: in a run in which no delivery succeeded, whether it failed or
/// was never tried, the snapshot holds after the run what it held before.
pub proof fn lemma_snapshot_kept_without_delivery(
    before: Seq<u8>,
    states: Seq<State>,
    events: Seq<Event>,
    actions: Seq<Action>,
)
    requires
        is_run(states, events, actions),
        forall|i: int| 0 <= i < events.len() ==> !is_delivered(#[trigger] events[i]),
    ensures
        forall|i: int| 0 <= i < actions.len() ==> !(#[trigger] actions[i] is WriteSnapshot),
        snapshot_after(before, actions) == before,
{
    assert forall|i: int| 0 <= i < actions.len() implies !(#[trigger] actions[i]
        is WriteSnapshot) by {
        if actions[i] is WriteSnapshot {
            lemma_write_needs_delivery(states[i], events[i], states[i + 1], actions[i]);
        }
    }
    lemma_no_write_no_change(before, actions);
}

/// The message that is handed out for delivery is built around the body
/// that the template engine gave, in answer to that rendering: its bytes
/// are what the builder makes of the configuration, that body and the time
/// of the rendering, and it goes where the configuration directs it.
pub proof fn lemma_mail_carries_rendering(state: State, event: Event, next: State, act: Action)
    requires
        step_rule(state, event, next, act),
        act is Send,
    ensures
        state matches State::Rendering { config, .. } && event matches Event::Rendered(
            Ok(rendering),
        ) && act matches Action::Send { delivery } && delivery.follows(config@) && composed(
            config@,
            rendering.body@,
            rendering.at,
        ) == Ok::<Seq<u8>, Seq<char>>(delivery.message@),
{
}

/// The template engine is asked for the rendering of the payload, and of
/// nothing else: the request names the records of the new entries that
/// the run holds.
pub proof fn lemma_render_asks_for_payload(state: State, event: Event, next: State, act: Action)
    requires
        step_rule(state, event, next, act),
        act is Render,
    ensures
        state matches State::Diffed { payload, .. } && event matches Event::TemplatesRead(
            Ok(templates),
        ) && act matches Action::Render { request } && request.asks_for(
            templates@,
            crate::transform::ser_items_view(payload@),
        ),
{
}

/// After a rendering that failed the run is given up as a `RenderError`
/// with the engine's message.
pub proof fn lemma_failed_rendering_aborts(state: State, cause: String, next: State, act: Action)
    requires
        step_rule(state, Event::Rendered(Err(cause)), next, act),
        state is Rendering,
    ensures
        next == (State::Failed { kind: ErrorKind::Render }),
        act matches Action::Abort { error } && error.kind() == ErrorKind::Render
            && error.spec_cause() == cause@,
{
}

/// What is known after `done` steps of a run in which no rendering gave a
/// body: no message is awaited to be delivered, and nothing was sent or
/// written.
spec fn stays_unsent(states: Seq<State>, actions: Seq<Action>, done: int) -> bool {
    &&& sends_nothing(actions.take(done))
    &&& writes_nothing(actions.take(done))
    &&& !(states[done] is Notifying)
    &&& !(states[done] is Persisting)
    &&& !(states[done] is Persisted)
}

proof fn lemma_stays_unsent(
    states: Seq<State>,
    events: Seq<Event>,
    actions: Seq<Action>,
    done: int,
)
    requires
        is_run(states, events, actions),
        forall|i: int| 0 <= i < events.len() ==> !is_rendered(#[trigger] events[i]),
        0 <= done <= events.len(),
    ensures
        stays_unsent(states, actions, done),
    decreases done,
{
    if done > 0 {
        let last = done - 1;
        lemma_stays_unsent(states, events, actions, last);
        assert(step_rule(states[last], events[last], states[last + 1], actions[last]));
        assert(!is_rendered(events[last]));
        let sofar = actions.take(done);
        assert forall|i: int| 0 <= i < sofar.len() implies !(#[trigger] sofar[i] is Send) && !(
        sofar[i] is WriteSnapshot) by {
            if i < last {
                assert(sofar[i] == actions.take(last)[i]);
            }
        }
    }
}

/// A run in which the rendering fails, or is never come to, sends no mail
/// and leaves the snapshot as it was, whatever was fetched.
pub proof fn lemma_nothing_sent_without_rendering(
    before: Seq<u8>,
    states: Seq<State>,
    events: Seq<Event>,
    actions: Seq<Action>,
)
    requires
        is_run(states, events, actions),
        forall|i: int| 0 <= i < events.len() ==> !is_rendered(#[trigger] events[i]),
    ensures
        sends_nothing(actions),
        writes_nothing(actions),
        snapshot_after(before, actions) == before,
{
    lemma_stays_unsent(states, events, actions, events.len() as int);
    assert(actions.take(events.len() as int) =~= actions);
    lemma_no_write_no_change(before, actions);
}

/// How far a state is along the way of a run.
pub open spec fn rank(state: State) -> nat {
    match state {
        State::Initial => 0,
        State::ConfigLoaded { .. } => 1,
        State::Fetched { .. } => 2,
        State::Diffed { .. } => 3,
        State::Rendering { .. } => 4,
        State::Notifying { .. } => 5,
        State::Persisting => 6,
        _ => 7,
    }
}

/// A run only moves forward: a later state is further along the way than
/// an earlier one, and a run that has ended stays as it ended.
pub proof fn lemma_run_moves_forward(
    states: Seq<State>,
    events: Seq<Event>,
    actions: Seq<Action>,
    earlier: int,
    later: int,
)
    requires
        is_run(states, events, actions),
        0 <= earlier < later < states.len(),
    ensures
        states[earlier].is_final() ==> states[later] == states[earlier],
        !states[earlier].is_final() ==> rank(states[earlier]) < rank(states[later]),
    decreases later - earlier,
{
    assert(step_rule(states[earlier], events[earlier], states[earlier + 1], actions[earlier]));
    if earlier + 1 < later {
        lemma_run_moves_forward(states, events, actions, earlier + 1, later);
    }
}

/// A run hands a message out for delivery at most once, and asks for at
/// most one write.
pub proof fn lemma_at_most_one_delivery_and_write(
    states: Seq<State>,
    events: Seq<Event>,
    actions: Seq<Action>,
    i: int,
    j: int,
)
    requires
        is_run(states, events, actions),
        0 <= i < actions.len(),
        0 <= j < actions.len(),
    ensures
        actions[i] is Send && actions[j] is Send ==> i == j,
        actions[i] is WriteSnapshot && actions[j] is WriteSnapshot ==> i == j,
{
    assert(step_rule(states[i], events[i], states[i + 1], actions[i]));
    assert(step_rule(states[j], events[j], states[j + 1], actions[j]));
    if i < j {
        lemma_run_moves_forward(states, events, actions, i, j);
    } else if j < i {
        lemma_run_moves_forward(states, events, actions, j, i);
    }
}

/// Every answer of the server of the feed in these answers brought `body`.
pub open spec fn fetches_only(events: Seq<Event>, body: Seq<u8>) -> bool {
    forall|i: int|
        0 <= i < events.len() ==> (#[trigger] events[i] matches Event::Fetched(Ok(response))
            ==> response.body@ == body)
}

/// The template engine gave a body.
pub open spec fn is_rendered(event: Event) -> bool {
    event matches Event::Rendered(Ok(_))
}

/// Every reading of the snapshot that succeeded in these answers brought
/// `content`.
pub open spec fn reads_only(events: Seq<Event>, content: Seq<u8>) -> bool {
    forall|i: int|
        0 <= i < events.len() ==> (#[trigger] events[i] matches Event::SnapshotRead(Ok(t)) ==> t@
            == content)
}

/// A snapshot that holds `content` lacks no entry of a feed whose body is
/// `body`, where both are well-formed.
pub open spec fn is_up_to_date(body: Seq<u8>, content: Seq<u8>) -> bool {
    match (feed_of(body), feed_of(content)) {
        (Some(fetched), Some(stored)) => diff_spec(fetched, stored).len() == 0,
        _ => true,
    }
}

/// No message is handed out for delivery.
pub open spec fn sends_nothing(actions: Seq<Action>) -> bool {
    forall|i: int| 0 <= i < actions.len() ==> !(#[trigger] actions[i] is Send)
}

/// Nothing is written.
pub open spec fn writes_nothing(actions: Seq<Action>) -> bool {
    forall|i: int| 0 <= i < actions.len() ==> !(#[trigger] actions[i] is WriteSnapshot)
}

/// What is known after `done` steps of a run that retrieves `body` and
/// finds `before` in the snapshot.
spec fn progress(
    before: Seq<u8>,
    body: Seq<u8>,
    states: Seq<State>,
    actions: Seq<Action>,
    done: int,
) -> bool {
    let now = snapshot_after(before, actions.take(done));
    match states[done] {
        State::Initial => now == before,
        State::ConfigLoaded { .. } => now == before,
        State::Fetched { fetched, .. } => now == before && fetched.wf() && fetched@.raw == body,
        State::Diffed { fetched, .. } => now == before && fetched.wf() && fetched@.raw == body,
        State::Rendering { fetched, .. } => now == before && fetched.wf() && fetched@.raw == body,
        State::Notifying { fetched, .. } => now == before && fetched.wf() && fetched@.raw == body,
        State::Persisting => now == body,
        State::Persisted => now == body,
        State::NoOp => now == before && is_up_to_date(body, before),
        State::Failed { .. } => true,
    }
}

proof fn lemma_progress(
    before: Seq<u8>,
    body: Seq<u8>,
    states: Seq<State>,
    events: Seq<Event>,
    actions: Seq<Action>,
    done: int,
)
    requires
        is_run(states, events, actions),
        fetches_only(events, body),
        reads_only(events, before),
        0 <= done <= events.len(),
    ensures
        progress(before, body, states, actions, done),
    decreases done,
{
    if done == 0 {
        assert(actions.take(0) =~= Seq::<Action>::empty());
    } else {
        let last = done - 1;
        lemma_progress(before, body, states, events, actions, last);
        assert(step_rule(states[last], events[last], states[last + 1], actions[last]));
        assert(actions.take(done).drop_last() =~= actions.take(last));
    }
}

/// In a run that retrieves `body` and finds a snapshot that lacks no entry
/// of it, the difference is never anything but empty: after `done` steps no
/// message is awaited and nothing was sent or written.
spec fn stays_quiet(body: Seq<u8>, states: Seq<State>, actions: Seq<Action>, done: int) -> bool {
    &&& sends_nothing(actions.take(done))
    &&& writes_nothing(actions.take(done))
    &&& match states[done] {
        State::Fetched { fetched, .. } => fetched.wf() && fetched@.raw == body,
        State::Diffed { .. } => false,
        State::Rendering { .. } => false,
        State::Notifying { .. } => false,
        State::Persisting => false,
        State::Persisted => false,
        _ => true,
    }
}

proof fn lemma_stays_quiet(
    body: Seq<u8>,
    content: Seq<u8>,
    states: Seq<State>,
    events: Seq<Event>,
    actions: Seq<Action>,
    done: int,
)
    requires
        is_run(states, events, actions),
        fetches_only(events, body),
        reads_only(events, content),
        is_up_to_date(body, content),
        0 <= done <= events.len(),
    ensures
        stays_quiet(body, states, actions, done),
    decreases done,
{
    if done > 0 {
        let last = done - 1;
        lemma_stays_quiet(body, content, states, events, actions, last);
        assert(step_rule(states[last], events[last], states[last + 1], actions[last]));
        let sofar = actions.take(done);
        assert forall|i: int| 0 <= i < sofar.len() implies !(#[trigger] sofar[i] is Send) && !(
        sofar[i] is WriteSnapshot) by {
            if i < last {
                assert(sofar[i] == actions.take(last)[i]);
            }
        }
    }
}

/// A run that finds the snapshot up to date with the feed sends nothing and
/// leaves the snapshot as it is.
pub proof fn lemma_up_to_date_run_is_quiet(
    body: Seq<u8>,
    content: Seq<u8>,
    states: Seq<State>,
    events: Seq<Event>,
    actions: Seq<Action>,
)
    requires
        is_run(states, events, actions),
        fetches_only(events, body),
        reads_only(events, content),
        is_up_to_date(body, content),
    ensures
        sends_nothing(actions),
        writes_nothing(actions),
        snapshot_after(content, actions) == content,
{
    lemma_stays_quiet(body, content, states, events, actions, events.len() as int);
    assert(actions.take(events.len() as int) =~= actions);
    lemma_no_write_no_change(content, actions);
}

/// A run that ended well leaves the snapshot up to date with the feed it
/// retrieved: either it found nothing new, or it replaced the snapshot by
/// the body of the feed.
pub proof fn lemma_success_leaves_up_to_date(
    before: Seq<u8>,
    body: Seq<u8>,
    states: Seq<State>,
    events: Seq<Event>,
    actions: Seq<Action>,
)
    requires
        is_run(states, events, actions),
        fetches_only(events, body),
        reads_only(events, before),
        states.last() is NoOp || states.last() is Persisted,
    ensures
        is_up_to_date(body, snapshot_after(before, actions)),
        states.last() is Persisted ==> snapshot_after(before, actions) == body,
        states.last() is NoOp ==> snapshot_after(before, actions) == before,
{
    lemma_progress(before, body, states, events, actions, events.len() as int);
    assert(actions.take(events.len() as int) =~= actions);
    if states.last() is Persisted {
        match feed_of(body) {
            Some(items) => lemma_diff_self_is_empty(items),
            None => {},
        }
    }
}

/// Running twice is the same as running once: after a run that ended well,
/// a second run that retrieves the same body, and finds the snapshot as the
/// first run left it, hands no message out for delivery and leaves the
/// snapshot unchanged.
pub proof fn lemma_second_run_is_quiet(
    before: Seq<u8>,
    body: Seq<u8>,
    first_states: Seq<State>,
    first_events: Seq<Event>,
    first_actions: Seq<Action>,
    second_states: Seq<State>,
    second_events: Seq<Event>,
    second_actions: Seq<Action>,
)
    requires
        is_run(first_states, first_events, first_actions),
        fetches_only(first_events, body),
        reads_only(first_events, before),
        first_states.last() is NoOp || first_states.last() is Persisted,
        is_run(second_states, second_events, second_actions),
        fetches_only(second_events, body),
        reads_only(second_events, snapshot_after(before, first_actions)),
    ensures
        sends_nothing(second_actions),
        writes_nothing(second_actions),
        snapshot_after(snapshot_after(before, first_actions), second_actions) == snapshot_after(
            before,
            first_actions,
        ),
{
    lemma_success_leaves_up_to_date(before, body, first_states, first_events, first_actions);
    lemma_up_to_date_run_is_quiet(
        body,
        snapshot_after(before, first_actions),
        second_states,
        second_events,
        second_actions,
    );
}

} // verus!
