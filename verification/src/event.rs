//! The input events the tracker consumes, reduced to what the timing logic reads.

use vstd::prelude::*;
use vstd::string::StringExecFns;

verus! {

/// The kinds of event that can appear in the log.
#[derive(Clone, Copy, Debug, PartialEq, Eq, Structural)]
pub enum EventType {
    KeyDown,
    KeyUp,
    MouseDown,
    MouseUp,
}

/// Which mouse button an event is about.
#[derive(Clone, Copy, Debug, PartialEq, Eq, Structural)]
pub enum MouseButton {
    /// No button at all, as carried by events that are not clicks.
    NoButton,
    Left,
    Right,
    Middle,
    X1,
    X2,
}

/// The textual name of a mouse button, as the log shows it.
pub open spec fn button_name(button: MouseButton) -> Seq<char> {
    match button {
        MouseButton::NoButton => "None"@,
        MouseButton::Left => "Left"@,
        MouseButton::Right => "Right"@,
        MouseButton::Middle => "Middle"@,
        MouseButton::X1 => "X1"@,
        MouseButton::X2 => "X2"@,
    }
}

impl MouseButton {
    /// The button's textual name.
    pub fn name(&self) -> (text: String)
        ensures
            text@ == button_name(*self),
    {
        match self {
            MouseButton::NoButton => String::from_str("None"),
            MouseButton::Left => String::from_str("Left"),
            MouseButton::Right => String::from_str("Right"),
            MouseButton::Middle => String::from_str("Middle"),
            MouseButton::X1 => String::from_str("X1"),
            MouseButton::X2 => String::from_str("X2"),
        }
    }

    /// The identifier under which the button's presses are tracked.
    pub fn identifier(&self) -> (id: String)
        ensures
            id@ == button_identifier(*self),
    {
        let name = self.name();
        String::from_str("Mouse:").concat(name.as_str())
    }
}

/// The identifier under which the presses of a key are tracked: the key's
/// text behind a mark that no button's identifier starts with.
pub open spec fn key_identifier(text: Seq<char>) -> Seq<char> {
    "Key:"@ + text
}

/// The identifier under which the presses of a mouse button are tracked: the
/// button's name behind a mark that no key's identifier starts with.
pub open spec fn button_identifier(button: MouseButton) -> Seq<char> {
    "Mouse:"@ + button_name(button)
}

/// Distinct buttons have distinct names.
pub proof fn lemma_button_names_distinct(a: MouseButton, b: MouseButton)
    ensures
        button_name(a) == button_name(b) <==> a == b,
{
    reveal_strlit("None");
    reveal_strlit("Left");
    reveal_strlit("Right");
    reveal_strlit("Middle");
    reveal_strlit("X1");
    reveal_strlit("X2");
    if a != b {
        let x = button_name(a);
        let y = button_name(b);
        assert(x.len() != y.len() || x[0] != y[0] || x[1] != y[1]);
    }
}

/// A key and a button never share an identifier, whatever the key's text:
/// their presses cannot meet in the tracker.
pub proof fn lemma_key_and_button_identifiers_differ(text: Seq<char>, button: MouseButton)
    ensures
        key_identifier(text) != button_identifier(button),
{
    reveal_strlit("Key:");
    reveal_strlit("Mouse:");
    assert(key_identifier(text)[0] == 'K');
    assert(button_identifier(button)[0] == 'M');
}

/// Keys with distinct texts have distinct identifiers.
pub proof fn lemma_key_identifiers_distinct(a: Seq<char>, b: Seq<char>)
    ensures
        key_identifier(a) == key_identifier(b) <==> a == b,
{
    let mark = "Key:"@;
    assert(a =~= key_identifier(a).subrange(mark.len() as int, key_identifier(a).len() as int));
    assert(b =~= key_identifier(b).subrange(mark.len() as int, key_identifier(b).len() as int));
}

/// Distinct buttons have distinct identifiers.
pub proof fn lemma_button_identifiers_distinct(a: MouseButton, b: MouseButton)
    ensures
        button_identifier(a) == button_identifier(b) <==> a == b,
{
    let mark = "Mouse:"@;
    let x = button_identifier(a);
    let y = button_identifier(b);
    assert(button_name(a) =~= x.subrange(mark.len() as int, x.len() as int));
    assert(button_name(b) =~= y.subrange(mark.len() as int, y.len() as int));
    lemma_button_names_distinct(a, b);
}

/// What a key event carries for the tracker: the logical key's text, by which
/// its presses are tracked, and the physical key's code, which the log shows.
#[derive(Debug)]
pub struct KeyInput {
    pub key: String,
    pub code: String,
}

/// The mathematical content of a [`KeyInput`].
pub struct KeyInputView {
    pub key: Seq<char>,
    pub code: Seq<char>,
}

impl View for KeyInput {
    type V = KeyInputView;

    open spec fn view(&self) -> KeyInputView {
        KeyInputView { key: self.key@, code: self.code@ }
    }
}

impl KeyInput {
    /// The identifier under which the key's presses are tracked.
    pub fn identifier(&self) -> (id: String)
        ensures
            id@ == key_identifier(self.key@),
    {
        String::from_str("Key:").concat(self.key.as_str())
    }
}

impl Clone for KeyInput {
    fn clone(&self) -> (copy: Self)
        ensures
            copy == *self,
    {
        KeyInput { key: self.key.clone(), code: self.code.clone() }
    }
}

/// What a mouse event carries for the tracker: the button it is about. The
/// cursor position plays no part in timing and is not kept.
#[derive(Clone, Copy, Debug, PartialEq, Eq, Structural)]
pub struct MouseInput {
    pub button: MouseButton,
}

/// An event as delivered to the capture region. Everything that is neither a
/// key nor a mouse button going down or up is `Other`.
#[derive(Debug)]
pub enum InputEvent {
    KeyDown(KeyInput),
    KeyUp(KeyInput),
    MouseDown(MouseInput),
    MouseUp(MouseInput),
    Other,
}

/// The mathematical content of an [`InputEvent`].
pub enum InputEventView {
    KeyDown(KeyInputView),
    KeyUp(KeyInputView),
    MouseDown(MouseInput),
    MouseUp(MouseInput),
    Other,
}

impl View for InputEvent {
    type V = InputEventView;

    open spec fn view(&self) -> InputEventView {
        match self {
            InputEvent::KeyDown(key) => InputEventView::KeyDown(key@),
            InputEvent::KeyUp(key) => InputEventView::KeyUp(key@),
            InputEvent::MouseDown(mouse) => InputEventView::MouseDown(*mouse),
            InputEvent::MouseUp(mouse) => InputEventView::MouseUp(*mouse),
            InputEvent::Other => InputEventView::Other,
        }
    }
}

impl InputEventView {
    /// The identifier under which the event's key or button is tracked. It
    /// carries its kind: a key's identifier is never a button's.
    pub open spec fn identifier(self) -> Option<Seq<char>> {
        match self {
            InputEventView::KeyDown(key) => Some(key_identifier(key.key)),
            InputEventView::KeyUp(key) => Some(key_identifier(key.key)),
            InputEventView::MouseDown(mouse) => Some(button_identifier(mouse.button)),
            InputEventView::MouseUp(mouse) => Some(button_identifier(mouse.button)),
            InputEventView::Other => None,
        }
    }

    /// The event is about a key.
    pub open spec fn is_key(self) -> bool {
        self is KeyDown || self is KeyUp
    }

    /// The event is about a mouse button.
    pub open spec fn is_mouse(self) -> bool {
        self is MouseDown || self is MouseUp
    }

    /// A key or button going down.
    pub open spec fn is_press(self) -> bool {
        self is KeyDown || self is MouseDown
    }

    /// A key or button coming up.
    pub open spec fn is_release(self) -> bool {
        self is KeyUp || self is MouseUp
    }

    /// The event is one of the four kinds that take part in timing.
    pub open spec fn is_timed(self) -> bool {
        self.is_press() || self.is_release()
    }
}

impl InputEvent {
    /// The identifier under which the event's key or button is tracked, and
    /// `None` for an event that takes no part in timing.
    pub fn identifier(&self) -> (id: Option<String>)
        ensures
            id is Some <==> self@.identifier() is Some,
            id matches Some(text) ==> Some(text@) == self@.identifier(),
    {
        match self {
            InputEvent::KeyDown(key) => Some(key.identifier()),
            InputEvent::KeyUp(key) => Some(key.identifier()),
            InputEvent::MouseDown(mouse) => Some(mouse.button.identifier()),
            InputEvent::MouseUp(mouse) => Some(mouse.button.identifier()),
            InputEvent::Other => None,
        }
    }

    /// Whether the event is a key or button going down.
    pub fn is_press(&self) -> (yes: bool)
        ensures
            yes == self@.is_press(),
    {
        match self {
            InputEvent::KeyDown(_) => true,
            InputEvent::MouseDown(_) => true,
            _ => false,
        }
    }

    /// Whether the event is a key or button coming up.
    pub fn is_release(&self) -> (yes: bool)
        ensures
            yes == self@.is_release(),
    {
        match self {
            InputEvent::KeyUp(_) => true,
            InputEvent::MouseUp(_) => true,
            _ => false,
        }
    }

    /// Whether the event is one of the four kinds that take part in timing.
    /// Every other event passes through the capture region untouched.
    pub fn is_timed(&self) -> (yes: bool)
        ensures
            yes == self@.is_timed(),
    {
        match self {
            InputEvent::KeyDown(_) | InputEvent::KeyUp(_) | InputEvent::MouseDown(_)
            | InputEvent::MouseUp(_) => true,
            InputEvent::Other => false,
        }
    }
}

} // verus!
