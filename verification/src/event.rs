//! The event model: the closed set of semantic events that input decoding
//! produces, together with the supporting key, modifier and mouse types.

use vstd::prelude::*;

verus! {

/// A key on a keyboard.
#[derive(Copy, Clone, Eq, PartialEq, Debug)]
pub enum Key {
    /// A character.
    Char(char),
    /// Enter key.
    Enter,
    /// Backspace.
    Backspace,
    /// Tab.
    Tab,
    /// Escape.
    Escape,
    /// Up arrow.
    Up,
    /// Down arrow.
    Down,
    /// Left arrow.
    Left,
    /// Right arrow.
    Right,
    /// Pause/Break.
    Break,
    /// Insert.
    Insert,
    /// Delete.
    Delete,
    /// Home.
    Home,
    /// End.
    End,
    /// Page up.
    PageUp,
    /// Page down.
    PageDown,
    /// Function 0.
    F0,
    /// Function 1.
    F1,
    /// Function 2.
    F2,
    /// Function 3.
    F3,
    /// Function 4.
    F4,
    /// Function 5.
    F5,
    /// Function 6.
    F6,
    /// Function 7.
    F7,
    /// Function 8.
    F8,
    /// Function 9.
    F9,
    /// Function 10.
    F10,
    /// Function 11.
    F11,
    /// Function 12.
    F12,
    /// Function 13.
    F13,
    /// Function 14.
    F14,
    /// Function 15.
    F15,
}

/// The Ctrl flag of a [`Modifier`] bitset.
pub const MOD_CTRL: u8 = 0b001;

/// The Shift flag of a [`Modifier`] bitset.
pub const MOD_SHIFT: u8 = 0b010;

/// The Alt flag of a [`Modifier`] bitset.
pub const MOD_ALT: u8 = 0b100;

/// Modifier keys held during a key event: a bitset over Ctrl, Shift and Alt.
///
/// Only the three low bits are ever set; an empty bitset means no modifier.
#[derive(Copy, Clone, Eq, PartialEq, Debug)]
pub struct Modifier {
    /// The flag bits, a union of [`MOD_CTRL`], [`MOD_SHIFT`] and [`MOD_ALT`].
    pub bits: u8,
}

impl Modifier {
    /// No modifier held.
    pub fn none() -> (m: Modifier)
        ensures
            m.bits == 0,
    {
        Modifier { bits: 0 }
    }

    /// The Ctrl modifier alone.
    pub fn ctrl() -> (m: Modifier)
        ensures
            m.bits == MOD_CTRL,
    {
        Modifier { bits: MOD_CTRL }
    }

    /// The Shift modifier alone.
    pub fn shift() -> (m: Modifier)
        ensures
            m.bits == MOD_SHIFT,
    {
        Modifier { bits: MOD_SHIFT }
    }

    /// The Alt modifier alone.
    pub fn alt() -> (m: Modifier)
        ensures
            m.bits == MOD_ALT,
    {
        Modifier { bits: MOD_ALT }
    }

    /// The union of two modifier bitsets.
    pub fn union(self, other: Modifier) -> (m: Modifier)
        ensures
            m.bits == self.bits | other.bits,
    {
        Modifier { bits: self.bits | other.bits }
    }

    /// Whether the Ctrl flag is set.
    pub fn has_ctrl(self) -> (b: bool)
        ensures
            b == (self.bits & MOD_CTRL != 0),
    {
        self.bits & MOD_CTRL != 0
    }
}

impl Default for Modifier {
    /// The default modifier is the empty bitset.
    fn default() -> (m: Modifier)
        ensures
            m.bits == 0,
    {
        Modifier { bits: 0 }
    }
}

/// A button on a mouse.
#[derive(Copy, Clone, Eq, PartialEq, Debug)]
pub enum MouseButton {
    /// Left click.
    Left,
    /// Middle click.
    Middle,
    /// Right click.
    Right,
    /// Button 4.
    Button4,
    /// Button 5.
    Button5,
    /// Any button the backend reports that is none of the five above.
    Other,
}

/// A mouse event.
#[derive(Copy, Clone, Eq, PartialEq, Debug)]
pub enum MouseEvent {
    /// Button press.
    Press(MouseButton),
    /// Button release.
    Release(MouseButton),
    /// Mouse drag with a button held.
    Hold(MouseButton),
    /// Scroll up.
    WheelUp,
    /// Scroll down.
    WheelDown,
}

impl MouseEvent {
    /// The button carried by this event: the one of a press, release or
    /// hold, and nothing for the wheel events.
    pub open spec fn spec_button(self) -> Option<MouseButton> {
        match self {
            MouseEvent::Press(btn) => Some(btn),
            MouseEvent::Release(btn) => Some(btn),
            MouseEvent::Hold(btn) => Some(btn),
            _ => None,
        }
    }

    /// Gets the mouse button associated with the event, if there is one.
    pub fn button(&self) -> (r: Option<MouseButton>)
        ensures
            r == self.spec_button(),
    {
        match *self {
            MouseEvent::Press(btn) | MouseEvent::Release(btn) | MouseEvent::Hold(btn) => Some(btn),
            _ => None,
        }
    }
}

/// An event observed in the window.
#[derive(Eq, PartialEq, Debug)]
pub enum Event {
    /// A terminal refresh event.
    Refresh,
    /// A terminal resize event.
    Resize,
    /// A key press event.
    Key {
        /// The key pressed.
        key: Key,
        /// The key press modifier.
        modifier: Modifier,
    },
    /// A mouse event.
    Mouse {
        /// The position of the mouse.
        pos: (usize, usize),
        /// The mouse event.
        event: MouseEvent,
    },
    /// An event that could not be decoded, carrying the raw bytes seen.
    Unknown(Vec<u8>),
}

/// Whether two events carry the same content: equal in every variant, with
/// the raw payloads of two `Unknown` events compared byte for byte.
pub open spec fn same_event(a: Event, b: Event) -> bool {
    match (a, b) {
        (Event::Unknown(x), Event::Unknown(y)) => x@ == y@,
        _ => a == b,
    }
}

impl Clone for Event {
    /// An event clones to one with the same content.
    fn clone(&self) -> (e: Event)
        ensures
            same_event(e, *self),
    {
        match self {
            Event::Refresh => Event::Refresh,
            Event::Resize => Event::Resize,
            Event::Key { key, modifier } => Event::Key { key: *key, modifier: *modifier },
            Event::Mouse { pos, event } => Event::Mouse { pos: *pos, event: *event },
            Event::Unknown(bytes) => {
                let copy: Vec<u8> = bytes.clone();
                proof {
                    assert(copy@ =~= bytes@);
                }
                Event::Unknown(copy)
            },
        }
    }
}

impl Event {
    /// A key event with no modifier.
    pub fn key(key: Key) -> (e: Event)
        ensures
            e == (Event::Key { key, modifier: Modifier { bits: 0 } }),
    {
        Event::Key { key, modifier: Modifier { bits: 0 } }
    }
}

/// Whether an event is an `Unknown` with an empty payload: the shape that
/// stands in for "input seen but nothing decodable in it".
pub open spec fn is_empty_unknown(e: Event) -> bool {
    &&& e is Unknown
    &&& e->Unknown_0@ == Seq::<u8>::empty()
}

} // verus!
