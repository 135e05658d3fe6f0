//! One row of the log: a measured gesture and how it is shown.

use crate::event::{
    button_name, EventType, InputEvent, InputEventView, KeyInput, KeyInputView, MouseInput,
};
use std::time::Duration;
use vstd::prelude::*;
use vstd::string::StringExecFns;

verus! {

/// The measured latency of one gesture, with the event that completed it.
///
/// A record is built once, by [`Latencies::try_from_event`], and never changes.
#[derive(Debug)]
pub struct Latencies {
    typ: EventType,
    duration: u128,
    mouse: Option<MouseInput>,
    key: Option<KeyInput>,
}

/// The mathematical content of a [`Latencies`] record.
pub struct LatenciesView {
    pub typ: EventType,
    /// Nanoseconds between the press and the release.
    pub duration: u128,
    pub mouse: Option<MouseInput>,
    pub key: Option<KeyInputView>,
}

impl View for Latencies {
    type V = LatenciesView;

    closed spec fn view(&self) -> LatenciesView {
        LatenciesView {
            typ: self.typ,
            duration: self.duration,
            mouse: self.mouse,
            key: match self.key {
                Some(key) => Some(key@),
                None => None,
            },
        }
    }
}

impl Clone for Latencies {
    fn clone(&self) -> (copy: Self)
        ensures
            copy@ == self@,
    {
        Latencies {
            typ: self.typ,
            duration: self.duration,
            mouse: self.mouse,
            key: match &self.key {
                Some(key) => Some(key.clone()),
                None => None,
            },
        }
    }
}

/// Nanoseconds in one second.
pub const NANOS_PER_SEC: u128 = 1_000_000_000;

/// The text that `Duration`'s `Debug` formatting gives for a duration of
/// `secs` whole seconds and `subsec_nanos` further nanoseconds.
pub uninterp spec fn duration_text(secs: u64, subsec_nanos: u32) -> Seq<char>;

/// The textual name of an event kind.
pub open spec fn event_type_name(typ: EventType) -> Seq<char> {
    match typ {
        EventType::KeyDown => "KeyDown"@,
        EventType::KeyUp => "KeyUp"@,
        EventType::MouseDown => "MouseDown"@,
        EventType::MouseUp => "MouseUp"@,
    }
}

impl LatenciesView {
    /// The record that an event gives with a measured duration. Only the four
    /// timed kinds give one.
    pub open spec fn from_event(event: InputEventView, duration: u128) -> Option<LatenciesView> {
        match event {
            InputEventView::MouseUp(mouse) => Some(
                LatenciesView { typ: EventType::MouseUp, duration, mouse: Some(mouse), key: None },
            ),
            InputEventView::MouseDown(mouse) => Some(
                LatenciesView { typ: EventType::MouseDown, duration, mouse: Some(mouse), key: None },
            ),
            InputEventView::KeyUp(key) => Some(
                LatenciesView { typ: EventType::KeyUp, duration, mouse: None, key: Some(key) },
            ),
            InputEventView::KeyDown(key) => Some(
                LatenciesView { typ: EventType::KeyDown, duration, mouse: None, key: Some(key) },
            ),
            InputEventView::Other => None,
        }
    }

    /// Exactly one source is recorded, and it is the one the kind calls for:
    /// the key for a key event, the mouse button for a mouse event.
    pub open spec fn wf(self) -> bool {
        match self.typ {
            EventType::KeyDown | EventType::KeyUp => self.key is Some && self.mouse is None,
            EventType::MouseDown | EventType::MouseUp => self.mouse is Some && self.key is None,
        }
    }

    /// Whether the duration's whole seconds fit the formatter, which counts
    /// them in 64 bits. Only a duration of more than 584 billion years does
    /// not.
    pub open spec fn fits_formatter(self) -> bool {
        self.duration / NANOS_PER_SEC <= u64::MAX
    }

    /// The whole seconds of the duration as shown. A duration that does not
    /// fit the formatter is shown as the longest one that does.
    pub open spec fn shown_secs(self) -> u64 {
        if self.fits_formatter() {
            (self.duration / NANOS_PER_SEC) as u64
        } else {
            u64::MAX
        }
    }

    /// The nanoseconds beyond the whole seconds of the duration as shown.
    pub open spec fn shown_subsec_nanos(self) -> u32 {
        if self.fits_formatter() {
            (self.duration % NANOS_PER_SEC) as u32
        } else {
            999_999_999
        }
    }

    /// The duration column of the record's row: the text of the whole
    /// stored duration.
    pub open spec fn duration_column(self) -> Seq<char> {
        duration_text(self.shown_secs(), self.shown_subsec_nanos())
    }

    /// The event column of the record's row.
    pub open spec fn event_column(self) -> Seq<char> {
        event_type_name(self.typ)
    }

    /// The code column of the record's row: the key's code where a key is
    /// recorded, else the button's name where a mouse button is, else empty.
    pub open spec fn code_column(self) -> Seq<char> {
        match self.key {
            Some(key) => key.code,
            None => match self.mouse {
                Some(mouse) => button_name(mouse.button),
                None => Seq::empty(),
            },
        }
    }
}

/// Every record built from an event is well formed.
pub proof fn lemma_from_event_wf(event: InputEventView, duration: u128)
    ensures
        LatenciesView::from_event(event, duration) is Some <==> event.is_timed(),
        LatenciesView::from_event(event, duration) matches Some(record) ==> record.wf()
            && record.duration == duration,
{
}

/// Formats a duration as `Duration`'s `Debug` impl does, after
/// `Duration::new` has made it of its seconds and nanoseconds. The text
/// depends on the two numbers alone, so the contract only gives it its name.
/// `Duration::new` panics where the nanoseconds carry over into seconds that
/// are full; below one second's worth they never carry.
#[verifier::external_body]
fn debug_text_of_duration(secs: u64, subsec_nanos: u32) -> (text: String)
    requires
        subsec_nanos < NANOS_PER_SEC,
    ensures
        text@ == duration_text(secs, subsec_nanos),
{
    format!("{:?}", Duration::new(secs, subsec_nanos))
}

impl Latencies {
    /// Builds the record of a gesture that `event` completed after `duration`
    /// nanoseconds. An event outside the four timed kinds gives no record.
    pub fn try_from_event(event: &InputEvent, duration: u128) -> (record: Option<Latencies>)
        ensures
            record is Some <==> event@.is_timed(),
            match record {
                Some(r) => Some(r@) == LatenciesView::from_event(event@, duration),
                None => LatenciesView::from_event(event@, duration) is None,
            },
    {
        let to_log = match event {
            InputEvent::MouseUp(mouse) => Some((EventType::MouseUp, Some(*mouse), None)),
            InputEvent::MouseDown(mouse) => Some((EventType::MouseDown, Some(*mouse), None)),
            InputEvent::KeyUp(key) => Some((EventType::KeyUp, None, Some(key.clone()))),
            InputEvent::KeyDown(key) => Some((EventType::KeyDown, None, Some(key.clone()))),
            InputEvent::Other => None,
        };
        match to_log {
            Some((typ, mouse, key)) => Some(Latencies { typ, mouse, key, duration }),
            None => None,
        }
    }

    /// The kind of the event that completed the gesture.
    pub fn typ(&self) -> (typ: EventType)
        ensures
            typ == self@.typ,
    {
        self.typ
    }

    /// The measured duration in nanoseconds.
    pub fn nanos(&self) -> (nanos: u128)
        ensures
            nanos == self@.duration,
    {
        self.duration
    }

    /// The duration column: the elapsed time in human-readable form.
    pub fn duration(&self) -> (text: String)
        ensures
            text@ == self@.duration_column(),
    {
        let secs: u128 = self.duration / NANOS_PER_SEC;
        if secs <= u64::MAX as u128 {
            let subsec_nanos: u128 = self.duration % NANOS_PER_SEC;
            debug_text_of_duration(secs as u64, subsec_nanos as u32)
        } else {
            debug_text_of_duration(u64::MAX, 999_999_999)
        }
    }

    /// The event column: the name of the event kind.
    pub fn event_name(&self) -> (text: String)
        ensures
            text@ == self@.event_column(),
    {
        match self.typ {
            EventType::KeyDown => String::from_str("KeyDown"),
            EventType::KeyUp => String::from_str("KeyUp"),
            EventType::MouseDown => String::from_str("MouseDown"),
            EventType::MouseUp => String::from_str("MouseUp"),
        }
    }

    /// The code column: the key's code, or the mouse button's name.
    pub fn code(&self) -> (text: String)
        ensures
            text@ == self@.code_column(),
    {
        match &self.key {
            Some(key) => key.code.clone(),
            None => match &self.mouse {
                Some(mouse) => mouse.button.name(),
                None => String::new(),
            },
        }
    }
}

} // verus!
