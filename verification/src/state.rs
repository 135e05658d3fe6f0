//! The tracker of pending presses and the log of measured gestures.

use crate::clock::{unix_nanos, ClockError};
use crate::event::{EventType, InputEvent, InputEventView};
use crate::record::{Latencies, LatenciesView};
use vstd::hash_map::StringHashMap;
use vstd::prelude::*;

verus! {

/// The state behind the window: the log, newest record first, and for every
/// key or button that is held down the moment it went down.
pub struct AppState {
    latencies: Vec<Latencies>,
    keys_pressed_time: StringHashMap<u128>,
}

/// The mathematical content of an [`AppState`].
#[verifier::ext_equal]
pub struct AppStateView {
    /// The log, newest record first.
    pub latencies: Seq<LatenciesView>,
    /// The pending presses: identifier to press timestamp, in nanoseconds.
    pub keys_pressed_time: Map<Seq<char>, u128>,
}

/// The contents of a run of records.
pub open spec fn records_view(records: Seq<Latencies>) -> Seq<LatenciesView> {
    records.map_values(|record: Latencies| record@)
}

/// A record as the log holds it: exactly one source, the one its kind calls
/// for, and made by a release.
pub open spec fn logged_by_release(record: LatenciesView) -> bool {
    record.wf() && (record.typ == EventType::KeyUp || record.typ == EventType::MouseUp)
}

/// Every record of `log` is one that a release made.
pub open spec fn log_wf(log: Seq<LatenciesView>) -> bool {
    forall|i: int| 0 <= i < log.len() ==> logged_by_release(#[trigger] log[i])
}

/// The nanoseconds from a press to a release. A release stamped earlier than
/// its press, as a clock that was set back can produce, counts as zero.
pub open spec fn elapsed(pressed: u128, released: u128) -> u128 {
    if released >= pressed {
        (released - pressed) as u128
    } else {
        0
    }
}

impl AppStateView {
    /// The state at start: nothing logged, nothing held down.
    pub open spec fn empty() -> AppStateView {
        AppStateView { latencies: Seq::empty(), keys_pressed_time: Map::empty() }
    }

    /// Whether a press of `identifier` awaits its release.
    pub open spec fn is_pending(self, identifier: Seq<char>) -> bool {
        self.keys_pressed_time.contains_key(identifier)
    }

    /// The state after a press of `identifier` at `now`: the press is noted
    /// unless one is pending already, in which case nothing changes.
    pub open spec fn press(self, identifier: Seq<char>, now: u128) -> AppStateView {
        if self.is_pending(identifier) {
            self
        } else {
            AppStateView {
                keys_pressed_time: self.keys_pressed_time.insert(identifier, now),
                ..self
            }
        }
    }

    /// The duration that a release of `identifier` at `now` measures, if a
    /// press of it is pending.
    pub open spec fn release_duration(self, identifier: Seq<char>, now: u128) -> Option<u128> {
        if self.is_pending(identifier) {
            Some(elapsed(self.keys_pressed_time[identifier], now))
        } else {
            None
        }
    }

    /// The state after a release of `identifier`: its press is no longer
    /// pending. Without a pending press nothing changes.
    pub open spec fn release(self, identifier: Seq<char>) -> AppStateView {
        if self.is_pending(identifier) {
            AppStateView { keys_pressed_time: self.keys_pressed_time.remove(identifier), ..self }
        } else {
            self
        }
    }

    /// Whether `event` completes a gesture: it is a release, and a press of
    /// its identifier is pending.
    pub open spec fn completes(self, event: InputEventView) -> bool {
        event.is_release() && self.is_pending(event.identifier()->0)
    }

    /// The record that `event` at `now` adds to the log: one for an event
    /// that completes a gesture, none for anything else.
    pub open spec fn emits(self, event: InputEventView, now: u128) -> Option<LatenciesView> {
        if self.completes(event) {
            LatenciesView::from_event(
                event,
                elapsed(self.keys_pressed_time[event.identifier()->0], now),
            )
        } else {
            None
        }
    }

    /// The state after `event` arrived at `now`.
    pub open spec fn step(self, event: InputEventView, now: u128) -> AppStateView {
        if event.is_press() {
            self.press(event.identifier()->0, now)
        } else if event.is_release() {
            let released = self.release(event.identifier()->0);
            match self.emits(event, now) {
                Some(record) => AppStateView {
                    latencies: seq![record] + released.latencies,
                    ..released
                },
                None => released,
            }
        } else {
            self
        }
    }

    /// Whether handling `event` takes a reading of the clock: a press that is
    /// not pending yet, or a release whose press is pending.
    pub open spec fn reads_clock(self, event: InputEventView) -> bool {
        ||| event.is_press() && !self.is_pending(event.identifier()->0)
        ||| self.completes(event)
    }
}

/// One event keeps the log to records that releases made.
pub proof fn lemma_step_keeps_log_wf(state: AppStateView, event: InputEventView, now: u128)
    requires
        log_wf(state.latencies),
    ensures
        log_wf(state.step(event, now).latencies),
{
    let after = state.step(event, now).latencies;
    assert forall|i: int| 0 <= i < after.len() implies logged_by_release(#[trigger] after[i]) by {
        if state.emits(event, now) is Some {
            if i > 0 {
                assert(after[i] == state.latencies[i - 1]);
            }
        } else {
            assert(after[i] == state.latencies[i]);
        }
    }
}

impl View for AppState {
    type V = AppStateView;

    closed spec fn view(&self) -> AppStateView {
        AppStateView {
            latencies: records_view(self.latencies@),
            keys_pressed_time: self.keys_pressed_time@,
        }
    }
}

impl AppState {
    /// The state is well formed when every record of its log is one that a
    /// release made. It is so at start, and every method keeps it so.
    pub open spec fn wf(&self) -> bool {
        log_wf(self@.latencies)
    }

    /// The state at start: an empty log and no pending press.
    pub fn new() -> (state: AppState)
        ensures
            state@ == AppStateView::empty(),
            state.wf(),
    {
        AppState { latencies: Vec::new(), keys_pressed_time: StringHashMap::new() }
    }

    /// The log, newest record first.
    pub fn latencies(&self) -> (log: &Vec<Latencies>)
        ensures
            records_view(log@) == self@.latencies,
    {
        &self.latencies
    }

    /// The timestamp of the pending press of `identifier`, if there is one.
    pub fn pending_press(&self, identifier: &str) -> (pressed: Option<u128>)
        ensures
            pressed is Some <==> self@.is_pending(identifier@),
            pressed matches Some(at) ==> at == self@.keys_pressed_time[identifier@],
    {
        match self.keys_pressed_time.get(identifier) {
            Some(at) => Some(*at),
            None => None,
        }
    }

    /// How many presses are pending.
    pub fn pending_count(&self) -> (count: usize)
        ensures
            count == self@.keys_pressed_time.len(),
    {
        self.keys_pressed_time.len()
    }

    /// Notes a press of `identifier` at `now`. A press that is already
    /// pending keeps its first timestamp.
    pub fn on_press(&mut self, identifier: String, now: u128)
        ensures
            final(self)@ == old(self)@.press(identifier@, now),
            old(self).wf() ==> final(self).wf(),
    {
        match self.keys_pressed_time.get(identifier.as_str()) {
            Some(_) => {},
            None => {
                self.keys_pressed_time.insert(identifier, now);
            },
        }
    }

    /// Completes the gesture on `identifier` at `now`: returns the time since
    /// its pending press and forgets the press. Without a pending press it
    /// returns `None` and changes nothing.
    pub fn on_release(&mut self, identifier: &str, now: u128) -> (duration: Option<u128>)
        ensures
            duration == old(self)@.release_duration(identifier@, now),
            final(self)@ == old(self)@.release(identifier@),
            old(self).wf() ==> final(self).wf(),
    {
        let pressed = match self.keys_pressed_time.get(identifier) {
            Some(at) => *at,
            None => {
                return None;
            },
        };
        let duration: u128 = if now >= pressed {
            now - pressed
        } else {
            0
        };
        self.keys_pressed_time.remove(identifier);
        Some(duration)
    }

    /// Whether handling `event` takes a reading of the clock.
    pub fn reads_clock(&self, event: &InputEvent) -> (yes: bool)
        ensures
            yes == self@.reads_clock(event@),
    {
        match event.identifier() {
            Some(identifier) => {
                let pending = self.keys_pressed_time.contains_key(identifier.as_str());
                event.is_press() != pending
            },
            None => false,
        }
    }

    /// Handles `event`, which arrived at `now`. A press is noted; a release
    /// whose press is pending puts the measured gesture at the front of the
    /// log; every other event is ignored. Returns whether a record was
    /// logged.
    pub fn record_event(&mut self, event: &InputEvent, now: u128) -> (logged: bool)
        ensures
            final(self)@ == old(self)@.step(event@, now),
            logged == old(self)@.completes(event@),
            old(self).wf() ==> final(self).wf(),
    {
        proof {
            if self.wf() {
                lemma_step_keeps_log_wf(self@, event@, now);
            }
        }
        let identifier = match event.identifier() {
            Some(identifier) => identifier,
            None => {
                return false;
            },
        };
        if event.is_press() {
            self.on_press(identifier, now);
            return false;
        }
        if let Some(duration) = self.on_release(identifier.as_str(), now) {
            if let Some(to_log) = Latencies::try_from_event(event, duration) {
                self.latencies.insert(0, to_log);
                assert(records_view(self.latencies@) =~= seq![to_log@] + records_view(
                    old(self).latencies@,
                ));
                return true;
            }
        }
        false
    }

    /// Handles `event` at the moment the system clock shows, and returns
    /// whether a record was logged. The clock is read only where the outcome
    /// depends on it; when it cannot be read the state is left as it was.
    pub fn handle_event(&mut self, event: &InputEvent) -> (outcome: Result<bool, ClockError>)
        ensures
            match outcome {
                Ok(logged) => logged == old(self)@.completes(event@) && exists|now: u128|
                    final(self)@ == old(self)@.step(event@, now),
                Err(_) => final(self)@ == old(self)@,
            },
            !old(self)@.reads_clock(event@) ==> outcome is Ok && final(self)@ == old(self)@,
            old(self).wf() ==> final(self).wf(),
    {
        if !self.reads_clock(event) {
            assert(self@ == self@.step(event@, 0));
            return Ok(false);
        }
        match unix_nanos() {
            Ok(now) => Ok(self.record_event(event, now)),
            Err(error) => Err(error),
        }
    }
}

} // verus!
