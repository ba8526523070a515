//! The event decoder: the per-poll decision procedure that classifies one
//! raw input unit into a semantic [`Event`], consulting the keymap table and
//! the mouse decoder, and draining a pending-event queue before any new raw
//! input is taken.

use std::collections::HashMap;

use vstd::prelude::*;

use crate::event::{Event, Key, Modifier, MouseButton, MOD_CTRL, MOD_SHIFT};
use crate::mouse::{decode_mouse, mouse_post};

verus! {

broadcast use vstd::std_specs::hash::group_hash_axioms;

/// One raw input unit from the terminal backend, as a closed tagged union:
/// a literal character, a named special key, an extended code the backend
/// could not name, a resize notice, a mouse notice (already paired with the
/// queried mouse state and position), or anything else.
#[derive(Copy, Clone, Eq, PartialEq, Debug)]
pub enum Input {
    /// A literal character.
    Character(char),
    /// The Enter key.
    KeyEnter,
    /// The Backspace key.
    KeyBackspace,
    /// Back-tab.
    KeyBTab,
    /// Shift+Tab.
    KeySTab,
    /// Ctrl+Tab.
    KeyCTab,
    /// Ctrl+Alt+Tab.
    KeyCATab,
    /// An extended code with no name of its own.
    Unknown(i32),
    /// The up arrow.
    KeyUp,
    /// The down arrow.
    KeyDown,
    /// The left arrow.
    KeyLeft,
    /// The right arrow.
    KeyRight,
    /// Shift+Up.
    KeySR,
    /// Shift+Down.
    KeySF,
    /// Shift+Left.
    KeySLeft,
    /// Shift+Right.
    KeySRight,
    /// Pause/Break.
    KeyBreak,
    /// Insert.
    KeyIC,
    /// Delete.
    KeyDC,
    /// Home.
    KeyHome,
    /// End.
    KeyEnd,
    /// Page up.
    KeyPPage,
    /// Page down.
    KeyNPage,
    /// Shift+Insert.
    KeySIC,
    /// Shift+Delete.
    KeySDC,
    /// Shift+Home.
    KeySHome,
    /// Shift+End.
    KeySEnd,
    /// Shift+PageUp.
    KeySPrevious,
    /// Shift+PageDown.
    KeySNext,
    /// Function key 0.
    KeyF0,
    /// Function key 1.
    KeyF1,
    /// Function key 2.
    KeyF2,
    /// Function key 3.
    KeyF3,
    /// Function key 4.
    KeyF4,
    /// Function key 5.
    KeyF5,
    /// Function key 6.
    KeyF6,
    /// Function key 7.
    KeyF7,
    /// Function key 8.
    KeyF8,
    /// Function key 9.
    KeyF9,
    /// Function key 10.
    KeyF10,
    /// Function key 11.
    KeyF11,
    /// Function key 12.
    KeyF12,
    /// A terminal resize notice.
    KeyResize,
    /// A mouse notice: the raw button-state bitmask and the reported
    /// position.
    Mouse {
        /// The raw button-state bitmask.
        bstate: u32,
        /// The reported column.
        x: usize,
        /// The reported row.
        y: usize,
    },
    /// A mouse notice whose state query failed with the given code.
    MouseError(i32),
    /// Any raw input the backend reports that is none of the above.
    Other,
}

/// The little-endian 4-byte decomposition of a signed 32-bit code.
pub open spec fn le_bytes(code: i32) -> Seq<u8> {
    seq![
        (code & 0xFF) as u8,
        ((code >> 8) & 0xFF) as u8,
        ((code >> 16) & 0xFF) as u8,
        ((code >> 24) & 0xFF) as u8,
    ]
}

/// The signed 32-bit code four little-endian bytes stand for.
pub open spec fn merge_le(b: Seq<u8>) -> i32
    recommends
        b.len() == 4,
{
    ((b[0] as u32) | ((b[1] as u32) << 8) | ((b[2] as u32) << 16) | ((b[3] as u32) << 24)) as i32
}

/// Splits a signed 32-bit code into its four little-endian bytes.
pub fn split_i32(code: i32) -> (r: Vec<u8>)
    ensures
        r@ == le_bytes(code),
{
    proof {
        assert(0 <= (code & 0xFF) < 256 && 0 <= ((code >> 8) & 0xFF) < 256 && 0 <= ((code >> 16)
            & 0xFF) < 256 && 0 <= ((code >> 24) & 0xFF) < 256) by (bit_vector);
    }
    let mut r: Vec<u8> = Vec::new();
    r.push((code & 0xFF) as u8);
    r.push(((code >> 8) & 0xFF) as u8);
    r.push(((code >> 16) & 0xFF) as u8);
    r.push(((code >> 24) & 0xFF) as u8);
    proof {
        assert(r@ =~= le_bytes(code));
    }
    r
}

/// Splitting a code into its four little-endian bytes and reading them back
/// reproduces the code exactly.
pub proof fn lemma_le_round_trip(code: i32)
    ensures
        le_bytes(code).len() == 4,
        merge_le(le_bytes(code)) == code,
{
    let b0 = (code & 0xFF) as u8;
    let b1 = ((code >> 8) & 0xFF) as u8;
    let b2 = ((code >> 16) & 0xFF) as u8;
    let b3 = ((code >> 24) & 0xFF) as u8;
    assert(le_bytes(code) =~= seq![b0, b1, b2, b3]);
    assert((((b0 as u32) | ((b1 as u32) << 8) | ((b2 as u32) << 16) | ((b3 as u32) << 24)) as i32)
        == code) by (bit_vector)
        requires
            b0 == (code & 0xFF) as u8,
            b1 == ((code >> 8) & 0xFF) as u8,
            b2 == ((code >> 16) & 0xFF) as u8,
            b3 == ((code >> 24) & 0xFF) as u8,
    ;
}

/// A key event with no modifier.
pub open spec fn plain_key(k: Key) -> Event {
    Event::Key { key: k, modifier: Modifier { bits: 0 } }
}

/// A key event with the given modifier bits.
pub open spec fn mod_key(k: Key, bits: u8) -> Event {
    Event::Key { key: k, modifier: Modifier { bits } }
}

/// What a literal character classifies as: the dedicated Enter, Backspace,
/// Tab and Escape characters first; then the control range, recovered as
/// Ctrl plus a letter offset from `a`; then the character itself, bare.
pub open spec fn char_event(c: char) -> Event {
    if c == '\n' {
        plain_key(Key::Enter)
    } else if c == '\u{7f}' || c == '\u{8}' {
        plain_key(Key::Backspace)
    } else if c == '\t' {
        plain_key(Key::Tab)
    } else if c == '\u{1b}' {
        plain_key(Key::Escape)
    } else if 1 <= c as u32 && c as u32 <= 26 {
        mod_key(Key::Char(ctrl_letter(c)), MOD_CTRL)
    } else {
        plain_key(Key::Char(c))
    }
}

/// The letter a control-range character stands for, offset from `a`.
pub open spec fn ctrl_letter(c: char) -> char {
    ((c as u32 + 96) as u8) as char
}

/// What a named special key classifies as: the fixed one-to-one table of
/// arrows, shifted arrows, editing keys, their shifted variants, tab
/// combinations and function keys.
pub open spec fn named_key_event(input: Input) -> Event {
    match input {
        Input::KeyEnter => plain_key(Key::Enter),
        Input::KeyBackspace => plain_key(Key::Backspace),
        Input::KeyBTab => mod_key(Key::Tab, MOD_SHIFT),
        Input::KeySTab => mod_key(Key::Tab, MOD_SHIFT),
        Input::KeyCTab => mod_key(Key::Tab, MOD_CTRL),
        Input::KeyCATab => mod_key(Key::Tab, 0b101),
        Input::KeyUp => plain_key(Key::Up),
        Input::KeyDown => plain_key(Key::Down),
        Input::KeyLeft => plain_key(Key::Left),
        Input::KeyRight => plain_key(Key::Right),
        Input::KeySR => mod_key(Key::Up, MOD_SHIFT),
        Input::KeySF => mod_key(Key::Down, MOD_SHIFT),
        Input::KeySLeft => mod_key(Key::Left, MOD_SHIFT),
        Input::KeySRight => mod_key(Key::Right, MOD_SHIFT),
        Input::KeyBreak => plain_key(Key::Break),
        Input::KeyIC => plain_key(Key::Insert),
        Input::KeyDC => plain_key(Key::Delete),
        Input::KeyHome => plain_key(Key::Home),
        Input::KeyEnd => plain_key(Key::End),
        Input::KeyPPage => plain_key(Key::PageUp),
        Input::KeyNPage => plain_key(Key::PageDown),
        Input::KeySIC => mod_key(Key::Insert, MOD_SHIFT),
        Input::KeySDC => mod_key(Key::Delete, MOD_SHIFT),
        Input::KeySHome => mod_key(Key::Home, MOD_SHIFT),
        Input::KeySEnd => mod_key(Key::End, MOD_SHIFT),
        Input::KeySPrevious => mod_key(Key::PageUp, MOD_SHIFT),
        Input::KeySNext => mod_key(Key::PageDown, MOD_SHIFT),
        Input::KeyF0 => plain_key(Key::F0),
        Input::KeyF1 => plain_key(Key::F1),
        Input::KeyF2 => plain_key(Key::F2),
        Input::KeyF3 => plain_key(Key::F3),
        Input::KeyF4 => plain_key(Key::F4),
        Input::KeyF5 => plain_key(Key::F5),
        Input::KeyF6 => plain_key(Key::F6),
        Input::KeyF7 => plain_key(Key::F7),
        Input::KeyF8 => plain_key(Key::F8),
        Input::KeyF9 => plain_key(Key::F9),
        Input::KeyF10 => plain_key(Key::F10),
        Input::KeyF11 => plain_key(Key::F11),
        Input::KeyF12 => plain_key(Key::F12),
        _ => Event::Refresh,
    }
}

/// What looking an extended code up in the keymap yields: the pre-resolved
/// key event when the adjusted code has an entry, and otherwise an `Unknown`
/// carrying the code's little-endian bytes.
pub open spec fn unknown_event_post(
    km: Map<i32, (Key, Modifier)>,
    code: i32,
    e: Event,
) -> bool {
    if code + 304 <= i32::MAX && km.contains_key((code + 304) as i32) {
        e == mod_key(km[(code + 304) as i32].0, km[(code + 304) as i32].1.bits)
    } else {
        &&& e is Unknown
        &&& e->Unknown_0@ == le_bytes(code)
    }
}

/// The input decoder: the pending-event queue, the remembered last mouse
/// button, and the keymap table built at startup.
pub struct Decoder {
    /// Events already decomposed but not yet handed out, oldest first.
    pub queue: Vec<Event>,
    /// The button of the last press or release produced, consumed when a
    /// bare position report must be read as a drag.
    pub last_button: Option<MouseButton>,
    /// The keymap table for extended codes.
    pub keymap: HashMap<i32, (Key, Modifier)>,
}

/// How one classified raw input unit relates the decoder's state before and
/// after, and the event returned: literal characters, named keys, extended
/// codes, resize and failed mouse queries leave the state alone; a mouse
/// notice is decomposed with the returned event first and the rest queued.
pub open spec fn decode_post(pre: Decoder, input: Input, post: Decoder, e: Event) -> bool {
    match input {
        Input::Character(c) => {
            &&& post.queue@ == pre.queue@
            &&& post.last_button == pre.last_button
            &&& e == char_event(c)
        },
        Input::Unknown(code) => {
            &&& post.queue@ == pre.queue@
            &&& post.last_button == pre.last_button
            &&& unknown_event_post(pre.keymap@, code, e)
        },
        Input::Mouse { bstate, x, y } => mouse_post(
            bstate,
            (x, y),
            pre.last_button,
            seq![e] + post.queue@,
            post.last_button,
        ),
        Input::MouseError(code) => {
            &&& post.queue@ == pre.queue@
            &&& post.last_button == pre.last_button
            &&& e is Unknown
            &&& e->Unknown_0@ == le_bytes(code)
        },
        Input::KeyResize => {
            &&& post.queue@ == pre.queue@
            &&& post.last_button == pre.last_button
            &&& e == Event::Resize
        },
        _ => {
            &&& post.queue@ == pre.queue@
            &&& post.last_button == pre.last_button
            &&& e == named_key_event(input)
        },
    }
}

impl Decoder {
    /// A fresh decoder over a keymap table: empty queue, no remembered
    /// button.
    pub fn new(keymap: HashMap<i32, (Key, Modifier)>) -> (d: Decoder)
        ensures
            d.queue@ == Seq::<Event>::empty(),
            d.last_button is None,
            d.keymap == keymap,
    {
        Decoder { queue: Vec::new(), last_button: None, keymap }
    }

    /// Pops the oldest pending event, if there is one. The queue must be
    /// empty before any new raw input is decoded.
    pub fn pending(&mut self) -> (r: Option<Event>)
        ensures
            final(self).last_button == old(self).last_button,
            final(self).keymap == old(self).keymap,
            old(self).queue@.len() == 0 ==> r is None && final(self).queue@ == old(self).queue@,
            old(self).queue@.len() > 0 ==> {
                &&& r == Some(old(self).queue@[0])
                &&& final(self).queue@ == old(self).queue@.drop_first()
            },
    {
        if self.queue.len() == 0 {
            None
        } else {
            let e = self.queue.remove(0);
            proof {
                assert(self.queue@ =~= old(self).queue@.drop_first());
            }
            Some(e)
        }
    }

    /// Classifies one raw input unit into the event it stands for, queueing
    /// every event of a mouse decomposition after the first.
    pub fn decode_input(&mut self, input: Input) -> (e: Event)
        requires
            old(self).queue@.len() == 0,
        ensures
            final(self).keymap == old(self).keymap,
            decode_post(*old(self), input, *final(self), e),
    {
        match input {
            Input::Character(c) => {
                if c == '\n' {
                    Event::key(Key::Enter)
                } else if c == '\u{7f}' || c == '\u{8}' {
                    Event::key(Key::Backspace)
                } else if c == '\t' {
                    Event::key(Key::Tab)
                } else if c == '\u{1b}' {
                    Event::key(Key::Escape)
                } else {
                    let v = c as u32;
                    if 1 <= v && v <= 26 {
                        let letter = ((v + 96) as u8) as char;
                        Event::Key { key: Key::Char(letter), modifier: Modifier { bits: MOD_CTRL } }
                    } else {
                        Event::key(Key::Char(c))
                    }
                }
            },
            Input::Unknown(code) => {
                if code <= i32::MAX - 304 {
                    let adjusted = code + 304;
                    match self.keymap.get(&adjusted) {
                        Some(entry) => Event::Key {
                            key: entry.0,
                            modifier: entry.1,
                        },
                        None => Event::Unknown(split_i32(code)),
                    }
                } else {
                    Event::Unknown(split_i32(code))
                }
            },
            Input::Mouse { bstate, x, y } => {
                let (mut events, new_last) = decode_mouse(bstate, (x, y), self.last_button);
                let ghost all = events@;
                self.last_button = new_last;
                let first = events.remove(0);
                self.queue = events;
                proof {
                    assert(seq![first] + self.queue@ =~= all);
                }
                first
            },
            Input::MouseError(code) => Event::Unknown(split_i32(code)),
            Input::KeyResize => Event::Resize,
            Input::KeyEnter => Event::key(Key::Enter),
            Input::KeyBackspace => Event::key(Key::Backspace),
            Input::KeyBTab => Event::Key { key: Key::Tab, modifier: Modifier { bits: MOD_SHIFT } },
            Input::KeySTab => Event::Key { key: Key::Tab, modifier: Modifier { bits: MOD_SHIFT } },
            Input::KeyCTab => Event::Key { key: Key::Tab, modifier: Modifier { bits: MOD_CTRL } },
            Input::KeyCATab => Event::Key { key: Key::Tab, modifier: Modifier { bits: 0b101 } },
            Input::KeyUp => Event::key(Key::Up),
            Input::KeyDown => Event::key(Key::Down),
            Input::KeyLeft => Event::key(Key::Left),
            Input::KeyRight => Event::key(Key::Right),
            Input::KeySR => Event::Key { key: Key::Up, modifier: Modifier { bits: MOD_SHIFT } },
            Input::KeySF => Event::Key { key: Key::Down, modifier: Modifier { bits: MOD_SHIFT } },
            Input::KeySLeft => Event::Key {
                key: Key::Left,
                modifier: Modifier { bits: MOD_SHIFT },
            },
            Input::KeySRight => Event::Key {
                key: Key::Right,
                modifier: Modifier { bits: MOD_SHIFT },
            },
            Input::KeyBreak => Event::key(Key::Break),
            Input::KeyIC => Event::key(Key::Insert),
            Input::KeyDC => Event::key(Key::Delete),
            Input::KeyHome => Event::key(Key::Home),
            Input::KeyEnd => Event::key(Key::End),
            Input::KeyPPage => Event::key(Key::PageUp),
            Input::KeyNPage => Event::key(Key::PageDown),
            Input::KeySIC => Event::Key {
                key: Key::Insert,
                modifier: Modifier { bits: MOD_SHIFT },
            },
            Input::KeySDC => Event::Key {
                key: Key::Delete,
                modifier: Modifier { bits: MOD_SHIFT },
            },
            Input::KeySHome => Event::Key {
                key: Key::Home,
                modifier: Modifier { bits: MOD_SHIFT },
            },
            Input::KeySEnd => Event::Key { key: Key::End, modifier: Modifier { bits: MOD_SHIFT } },
            Input::KeySPrevious => Event::Key {
                key: Key::PageUp,
                modifier: Modifier { bits: MOD_SHIFT },
            },
            Input::KeySNext => Event::Key {
                key: Key::PageDown,
                modifier: Modifier { bits: MOD_SHIFT },
            },
            Input::KeyF0 => Event::key(Key::F0),
            Input::KeyF1 => Event::key(Key::F1),
            Input::KeyF2 => Event::key(Key::F2),
            Input::KeyF3 => Event::key(Key::F3),
            Input::KeyF4 => Event::key(Key::F4),
            Input::KeyF5 => Event::key(Key::F5),
            Input::KeyF6 => Event::key(Key::F6),
            Input::KeyF7 => Event::key(Key::F7),
            Input::KeyF8 => Event::key(Key::F8),
            Input::KeyF9 => Event::key(Key::F9),
            Input::KeyF10 => Event::key(Key::F10),
            Input::KeyF11 => Event::key(Key::F11),
            Input::KeyF12 => Event::key(Key::F12),
            Input::Other => Event::Refresh,
        }
    }
}

/// Draining the pending queue returns each queued event exactly once and in
/// order: with [`Decoder::pending`] popping the front and leaving the rest,
/// after any number of pops the front of what remains is the next original
/// element, and what then remains is the suffix after it. Once the queue is
/// empty, [`Decoder::pending`] keeps returning nothing and fresh input is
/// asked for.
pub proof fn lemma_drain_in_order(q: Seq<Event>, k: int)
    requires
        0 <= k < q.len(),
    ensures
        q.skip(k)[0] == q[k],
        q.skip(k).drop_first() == q.skip(k + 1),
{
    assert(q.skip(k).drop_first() =~= q.skip(k + 1));
}

/// Every control-range character other than the dedicated Backspace, Tab
/// and Enter characters decodes as Ctrl plus the letter recovered by its
/// offset from `a`.
pub proof fn lemma_ctrl_char(c: char)
    requires
        1 <= c as u32 <= 26,
        c as u32 != 8,
        c as u32 != 9,
        c as u32 != 10,
    ensures
        char_event(c) == mod_key(Key::Char(((c as u32 + 96) as u8) as char), MOD_CTRL),
{
    assert('\n' as u32 == 10);
    assert('\t' as u32 == 9);
    assert('\u{8}' as u32 == 8);
    assert('\u{7f}' as u32 == 127);
    assert('\u{1b}' as u32 == 27);
}

} // verus!
