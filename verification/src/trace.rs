//! What holds of the state over whole runs of events.

use crate::event::{lemma_key_and_button_identifiers_differ, InputEventView, MouseButton};
use crate::record::LatenciesView;
use crate::state::{lemma_step_keeps_log_wf, log_wf, AppStateView};
use vstd::prelude::*;

verus! {

/// An event together with the clock reading at which it was handled.
pub struct TimedEvent {
    pub event: InputEventView,
    pub at: u128,
}

/// The state after `events` were handled in order, starting from `start`.
pub open spec fn run(start: AppStateView, events: Seq<TimedEvent>) -> AppStateView
    decreases events.len(),
{
    if events.len() == 0 {
        start
    } else {
        run(start, events.drop_last()).step(events.last().event, events.last().at)
    }
}

/// The records that handling `events` from `start` adds to the log, in the
/// order in which their gestures were completed.
pub open spec fn emitted(start: AppStateView, events: Seq<TimedEvent>) -> Seq<LatenciesView>
    decreases events.len(),
{
    if events.len() == 0 {
        Seq::empty()
    } else {
        let earlier = emitted(start, events.drop_last());
        match run(start, events.drop_last()).emits(events.last().event, events.last().at) {
            Some(record) => earlier.push(record),
            None => earlier,
        }
    }
}

/// Whether `event` is a release of `identifier`.
pub open spec fn releases(event: InputEventView, identifier: Seq<char>) -> bool {
    event.is_release() && event.identifier() == Some(identifier)
}

/// One event grows the log by one record when it is a release whose press
/// is pending, and leaves the log as it is otherwise. What was logged before
/// stays, in its order, behind the new record.
pub proof fn lemma_step_log(state: AppStateView, event: InputEventView, now: u128)
    ensures
        state.emits(event, now) is Some <==> state.completes(event),
        state.step(event, now).latencies == match state.emits(event, now) {
            Some(record) => seq![record] + state.latencies,
            None => state.latencies,
        },
{
}

/// A release without a pending press adds no record and changes nothing.
pub proof fn lemma_stray_release_ignored(state: AppStateView, release: InputEventView, now: u128)
    requires
        release.is_release(),
        !state.is_pending(release.identifier()->0),
    ensures
        state.emits(release, now) is None,
        state.step(release, now) == state,
{
}

/// An event that concerns another identifier, or none, leaves the pending
/// press of `identifier` exactly as it was.
pub proof fn lemma_other_identifier_untouched(
    state: AppStateView,
    event: InputEventView,
    now: u128,
    identifier: Seq<char>,
)
    requires
        event.identifier() != Some(identifier),
    ensures
        state.step(event, now).is_pending(identifier) == state.is_pending(identifier),
        state.is_pending(identifier) ==> state.step(event, now).keys_pressed_time[identifier]
            == state.keys_pressed_time[identifier],
{
}

/// Keys and buttons do not interact: an event about a key, whatever the
/// key's text, leaves every button's pending press as it was, and an event
/// about a button leaves every key's.
pub proof fn lemma_keys_and_buttons_apart(
    state: AppStateView,
    key: InputEventView,
    mouse: InputEventView,
    now: u128,
)
    requires
        key.is_key(),
        mouse.is_mouse(),
    ensures
        key.identifier() != mouse.identifier(),
        state.step(key, now).is_pending(mouse.identifier()->0) == state.is_pending(
            mouse.identifier()->0,
        ),
        state.step(mouse, now).is_pending(key.identifier()->0) == state.is_pending(
            key.identifier()->0,
        ),
        state.is_pending(mouse.identifier()->0) ==> state.step(
            key,
            now,
        ).keys_pressed_time[mouse.identifier()->0]
            == state.keys_pressed_time[mouse.identifier()->0],
        state.is_pending(key.identifier()->0) ==> state.step(
            mouse,
            now,
        ).keys_pressed_time[key.identifier()->0] == state.keys_pressed_time[key.identifier()->0],
{
    let text = match key {
        InputEventView::KeyDown(input) => input.key,
        InputEventView::KeyUp(input) => input.key,
        _ => Seq::empty(),
    };
    let button = match mouse {
        InputEventView::MouseDown(input) => input.button,
        InputEventView::MouseUp(input) => input.button,
        _ => MouseButton::NoButton,
    };
    lemma_key_and_button_identifiers_differ(text, button);
    lemma_other_identifier_untouched(state, key, now, mouse.identifier()->0);
    lemma_other_identifier_untouched(state, mouse, now, key.identifier()->0);
}

/// Until it is released, a pending press keeps its timestamp, whatever else
/// is handled: further presses of the same identifier included.
pub proof fn lemma_pending_press_kept(
    state: AppStateView,
    events: Seq<TimedEvent>,
    identifier: Seq<char>,
)
    requires
        state.is_pending(identifier),
        forall|i: int| 0 <= i < events.len() ==> !releases(#[trigger] events[i].event, identifier),
    ensures
        run(state, events).is_pending(identifier),
        run(state, events).keys_pressed_time[identifier] == state.keys_pressed_time[identifier],
    decreases events.len(),
{
    if events.len() > 0 {
        let earlier = events.drop_last();
        lemma_pending_press_kept(state, earlier, identifier);
    }
}

/// A press, then any events that do not release the same identifier, then
/// its release: the release logs exactly one record, at the front, whose
/// duration is the time from the press to the release. The events in between
/// may belong to other gestures, begun or completed, and may repeat the press.
pub proof fn lemma_gesture_measures_delta(
    start: AppStateView,
    press: InputEventView,
    pressed_at: u128,
    between: Seq<TimedEvent>,
    release: InputEventView,
    released_at: u128,
)
    requires
        press.is_press(),
        release.is_release(),
        press.identifier() == release.identifier(),
        !start.is_pending(press.identifier()->0),
        forall|i: int|
            0 <= i < between.len() ==> !releases(
                #[trigger] between[i].event,
                release.identifier()->0,
            ),
        pressed_at <= released_at,
    ensures
        start.step(press, pressed_at).latencies == start.latencies,
        ({
            let held = run(start.step(press, pressed_at), between);
            let done = held.step(release, released_at);
            let record = LatenciesView::from_event(release, (released_at - pressed_at) as u128);
            &&& held.is_pending(press.identifier()->0)
            &&& held.keys_pressed_time[press.identifier()->0] == pressed_at
            &&& record is Some
            &&& record->0.duration == released_at - pressed_at
            &&& held.emits(release, released_at) == record
            &&& done.latencies == seq![record->0] + held.latencies
            &&& !done.is_pending(press.identifier()->0)
        }),
{
    let identifier = press.identifier()->0;
    let pressed = start.step(press, pressed_at);
    lemma_pending_press_kept(pressed, between, identifier);
}

/// A press that is repeated while it is pending changes nothing: the gesture
/// is still measured from the first press.
pub proof fn lemma_repeated_press_keeps_first(
    start: AppStateView,
    press: InputEventView,
    first_at: u128,
    again: InputEventView,
    again_at: u128,
    release: InputEventView,
    released_at: u128,
)
    requires
        press.is_press(),
        again.is_press(),
        release.is_release(),
        press.identifier() == again.identifier(),
        press.identifier() == release.identifier(),
        !start.is_pending(press.identifier()->0),
        first_at <= released_at,
    ensures
        start.step(press, first_at).step(again, again_at) == start.step(press, first_at),
        start.step(press, first_at).step(again, again_at).emits(release, released_at)
            == LatenciesView::from_event(release, (released_at - first_at) as u128),
{
}

/// The log is ordered newest first: after any run of events it holds the
/// records of that run, the last completed gesture at index 0, in front of
/// what it held before.
pub proof fn lemma_log_newest_first(start: AppStateView, events: Seq<TimedEvent>)
    ensures
        run(start, events).latencies == emitted(start, events).reverse() + start.latencies,
        forall|i: int|
            0 <= i < emitted(start, events).len() ==> #[trigger] run(start, events).latencies[i]
                == emitted(start, events)[emitted(start, events).len() - 1 - i],
    decreases events.len(),
{
    if events.len() == 0 {
        assert(emitted(start, events).reverse() + start.latencies =~= start.latencies);
    } else {
        let earlier = events.drop_last();
        let last = events.last();
        lemma_log_newest_first(start, earlier);
        lemma_step_log(run(start, earlier), last.event, last.at);
    }
}

/// Every record that a run of events logs is well formed and was made by a
/// release, provided that held of the log before.
pub proof fn lemma_log_holds_releases(start: AppStateView, events: Seq<TimedEvent>)
    requires
        log_wf(start.latencies),
    ensures
        log_wf(run(start, events).latencies),
    decreases events.len(),
{
    if events.len() > 0 {
        let earlier = events.drop_last();
        let last = events.last();
        lemma_log_holds_releases(start, earlier);
        lemma_step_keeps_log_wf(run(start, earlier), last.event, last.at);
    }
}

} // verus!
