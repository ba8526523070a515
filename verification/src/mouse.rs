//! The mouse decoder: decomposition of a raw mouse-state bitmask from the
//! terminal backend into an ordered sequence of discrete mouse events, and
//! the update of the remembered last-pressed button.
//!
//! The bitmask follows the curses mouse encoding: five flag bits per button
//! (release, press, click, double click, triple click), button `n` occupying
//! bits `5*(n-1)` to `5*(n-1)+4`, with the Ctrl, Shift and Alt flags at bits
//! 25 to 27 and the bare position-report flag at bit 28.

use vstd::prelude::*;

use crate::event::{is_empty_unknown, Event, MouseButton, MouseEvent};

verus! {

/// Button 1 released.
pub const BUTTON1_RELEASED: u32 = 0x1;

/// Button 1 pressed.
pub const BUTTON1_PRESSED: u32 = 0x2;

/// Button 1 clicked.
pub const BUTTON1_CLICKED: u32 = 0x4;

/// Button 1 double-clicked.
pub const BUTTON1_DOUBLE_CLICKED: u32 = 0x8;

/// Button 1 triple-clicked.
pub const BUTTON1_TRIPLE_CLICKED: u32 = 0x10;

/// Button 2 released.
pub const BUTTON2_RELEASED: u32 = 0x20;

/// Button 2 pressed.
pub const BUTTON2_PRESSED: u32 = 0x40;

/// Button 2 clicked.
pub const BUTTON2_CLICKED: u32 = 0x80;

/// Button 2 double-clicked.
pub const BUTTON2_DOUBLE_CLICKED: u32 = 0x100;

/// Button 2 triple-clicked.
pub const BUTTON2_TRIPLE_CLICKED: u32 = 0x200;

/// Button 3 released.
pub const BUTTON3_RELEASED: u32 = 0x400;

/// Button 3 pressed.
pub const BUTTON3_PRESSED: u32 = 0x800;

/// Button 3 clicked.
pub const BUTTON3_CLICKED: u32 = 0x1000;

/// Button 3 double-clicked.
pub const BUTTON3_DOUBLE_CLICKED: u32 = 0x2000;

/// Button 3 triple-clicked.
pub const BUTTON3_TRIPLE_CLICKED: u32 = 0x4000;

/// Button 4 released.
pub const BUTTON4_RELEASED: u32 = 0x8000;

/// Button 4 pressed, which the backend uses for a wheel-up notch.
pub const BUTTON4_PRESSED: u32 = 0x10000;

/// Button 4 clicked.
pub const BUTTON4_CLICKED: u32 = 0x20000;

/// Button 4 double-clicked.
pub const BUTTON4_DOUBLE_CLICKED: u32 = 0x40000;

/// Button 4 triple-clicked.
pub const BUTTON4_TRIPLE_CLICKED: u32 = 0x80000;

/// Button 5 released.
pub const BUTTON5_RELEASED: u32 = 0x100000;

/// Button 5 pressed, which the backend uses for a wheel-down notch.
pub const BUTTON5_PRESSED: u32 = 0x200000;

/// Button 5 clicked.
pub const BUTTON5_CLICKED: u32 = 0x400000;

/// Button 5 double-clicked.
pub const BUTTON5_DOUBLE_CLICKED: u32 = 0x800000;

/// Button 5 triple-clicked.
pub const BUTTON5_TRIPLE_CLICKED: u32 = 0x1000000;

/// The Ctrl flag of a mouse state.
pub const BUTTON_CTRL: u32 = 0x2000000;

/// The Shift flag of a mouse state.
pub const BUTTON_SHIFT: u32 = 0x4000000;

/// The Alt flag of a mouse state.
pub const BUTTON_ALT: u32 = 0x8000000;

/// The bare position-report flag: a mouse state with this value alone
/// reports motion with no button change.
pub const REPORT_MOUSE_POSITION: u32 = 0x10000000;

/// The mask of the 25 per-button flag bits.
pub const BUTTON_BITS: u32 = 0x1FFFFFF;

/// The button a single isolated flag bit belongs to.
pub open spec fn button_of_mask(mask: u32) -> MouseButton {
    if mask == BUTTON1_RELEASED || mask == BUTTON1_PRESSED || mask == BUTTON1_CLICKED
        || mask == BUTTON1_DOUBLE_CLICKED || mask == BUTTON1_TRIPLE_CLICKED {
        MouseButton::Left
    } else if mask == BUTTON2_RELEASED || mask == BUTTON2_PRESSED || mask == BUTTON2_CLICKED
        || mask == BUTTON2_DOUBLE_CLICKED || mask == BUTTON2_TRIPLE_CLICKED {
        MouseButton::Middle
    } else if mask == BUTTON3_RELEASED || mask == BUTTON3_PRESSED || mask == BUTTON3_CLICKED
        || mask == BUTTON3_DOUBLE_CLICKED || mask == BUTTON3_TRIPLE_CLICKED {
        MouseButton::Right
    } else if mask == BUTTON4_RELEASED || mask == BUTTON4_PRESSED || mask == BUTTON4_CLICKED
        || mask == BUTTON4_DOUBLE_CLICKED || mask == BUTTON4_TRIPLE_CLICKED {
        MouseButton::Button4
    } else if mask == BUTTON5_RELEASED || mask == BUTTON5_PRESSED || mask == BUTTON5_CLICKED
        || mask == BUTTON5_DOUBLE_CLICKED || mask == BUTTON5_TRIPLE_CLICKED {
        MouseButton::Button5
    } else {
        MouseButton::Other
    }
}

/// The ordered events a single isolated flag bit decomposes into: a wheel
/// notch, a release, a plain press (buttons 1 to 3 only), or a press/release
/// pair repeated once, twice or three times for click, double click and
/// triple click.
pub open spec fn bit_events(mask: u32) -> Seq<MouseEvent> {
    let btn = button_of_mask(mask);
    if mask == BUTTON4_PRESSED {
        seq![MouseEvent::WheelUp]
    } else if mask == BUTTON5_PRESSED {
        seq![MouseEvent::WheelDown]
    } else if mask == BUTTON1_RELEASED || mask == BUTTON2_RELEASED || mask == BUTTON3_RELEASED
        || mask == BUTTON4_RELEASED || mask == BUTTON5_RELEASED {
        seq![MouseEvent::Release(btn)]
    } else if mask == BUTTON1_PRESSED || mask == BUTTON2_PRESSED || mask == BUTTON3_PRESSED {
        seq![MouseEvent::Press(btn)]
    } else if mask == BUTTON1_CLICKED || mask == BUTTON2_CLICKED || mask == BUTTON3_CLICKED
        || mask == BUTTON4_CLICKED || mask == BUTTON5_CLICKED {
        seq![MouseEvent::Press(btn), MouseEvent::Release(btn)]
    } else if mask == BUTTON1_DOUBLE_CLICKED || mask == BUTTON2_DOUBLE_CLICKED
        || mask == BUTTON3_DOUBLE_CLICKED || mask == BUTTON4_DOUBLE_CLICKED
        || mask == BUTTON5_DOUBLE_CLICKED {
        seq![
            MouseEvent::Press(btn),
            MouseEvent::Release(btn),
            MouseEvent::Press(btn),
            MouseEvent::Release(btn),
        ]
    } else if mask == BUTTON1_TRIPLE_CLICKED || mask == BUTTON2_TRIPLE_CLICKED
        || mask == BUTTON3_TRIPLE_CLICKED || mask == BUTTON4_TRIPLE_CLICKED
        || mask == BUTTON5_TRIPLE_CLICKED {
        seq![
            MouseEvent::Press(btn),
            MouseEvent::Release(btn),
            MouseEvent::Press(btn),
            MouseEvent::Release(btn),
            MouseEvent::Press(btn),
            MouseEvent::Release(btn),
        ]
    } else {
        Seq::empty()
    }
}

/// The events a button-flag state decomposes into, taking its set bits from
/// bit `i` upward in increasing order.
pub open spec fn events_from(low: u32, i: u32) -> Seq<MouseEvent>
    decreases 25 - i,
{
    if i >= 25 {
        Seq::empty()
    } else if low & (1u32 << i) != 0 {
        bit_events(1u32 << i) + events_from(low, (i + 1) as u32)
    } else {
        events_from(low, (i + 1) as u32)
    }
}

/// The full ordered decomposition of a button-flag state.
pub open spec fn mouse_events(low: u32) -> Seq<MouseEvent> {
    events_from(low, 0)
}

/// The remembered last-pressed button after a sequence of decomposed events:
/// every press and release of a button replaces it, and wheel events leave
/// it alone.
pub open spec fn last_after(
    evs: Seq<MouseEvent>,
    last: Option<MouseButton>,
) -> Option<MouseButton>
    decreases evs.len(),
{
    if evs.len() == 0 {
        last
    } else {
        match evs.last() {
            MouseEvent::Press(b) => Some(b),
            MouseEvent::Release(b) => Some(b),
            _ => last_after(evs.drop_last(), last),
        }
    }
}

/// A raw mouse state with the Ctrl, Shift and Alt flags removed.
pub open spec fn stripped_state(bstate: u32) -> u32 {
    bstate & !(BUTTON_CTRL | BUTTON_SHIFT | BUTTON_ALT)
}

/// A sequence of mouse events, each tagged with the one position the raw
/// signal reported.
pub open spec fn tagged(pos: (usize, usize), evs: Seq<MouseEvent>) -> Seq<Event> {
    evs.map(|i: int, e: MouseEvent| Event::Mouse { pos, event: e })
}

/// What decoding one raw mouse state yields: the ordered events produced and
/// the new remembered button.
///
/// With modifier flags stripped, a bare position report becomes a single
/// hold of the remembered button, or a single empty `Unknown` when no button
/// is remembered; any other state decomposes bit by bit, in increasing bit
/// order, and an empty decomposition still yields a single empty `Unknown`.
pub open spec fn mouse_post(
    bstate: u32,
    pos: (usize, usize),
    last: Option<MouseButton>,
    out: Seq<Event>,
    new_last: Option<MouseButton>,
) -> bool {
    let s = stripped_state(bstate);
    if s == REPORT_MOUSE_POSITION {
        match last {
            Some(b) => {
                &&& out == seq![Event::Mouse { pos, event: MouseEvent::Hold(b) }]
                &&& new_last == last
            },
            None => {
                &&& out.len() == 1
                &&& is_empty_unknown(out[0])
                &&& new_last == last
            },
        }
    } else {
        let evs = mouse_events(s & BUTTON_BITS);
        if evs.len() == 0 {
            &&& out.len() == 1
            &&& is_empty_unknown(out[0])
            &&& new_last == last
        } else {
            &&& out == tagged(pos, evs)
            &&& new_last == last_after(evs, last)
        }
    }
}

/// The events a single isolated flag bit decomposes into.
fn bit_group(mask: u32) -> (g: Vec<MouseEvent>)
    ensures
        g@ == bit_events(mask),
{
    let mut g: Vec<MouseEvent> = Vec::new();
    if mask == BUTTON4_PRESSED {
        g.push(MouseEvent::WheelUp);
        proof {
            assert(g@ =~= bit_events(mask));
        }
    } else if mask == BUTTON5_PRESSED {
        g.push(MouseEvent::WheelDown);
        proof {
            assert(g@ =~= bit_events(mask));
        }
    } else if mask == BUTTON1_RELEASED || mask == BUTTON2_RELEASED || mask == BUTTON3_RELEASED
        || mask == BUTTON4_RELEASED || mask == BUTTON5_RELEASED {
        let btn = button_for(mask);
        g.push(MouseEvent::Release(btn));
        proof {
            assert(g@ =~= bit_events(mask));
        }
    } else if mask == BUTTON1_PRESSED || mask == BUTTON2_PRESSED || mask == BUTTON3_PRESSED {
        let btn = button_for(mask);
        g.push(MouseEvent::Press(btn));
        proof {
            assert(g@ =~= bit_events(mask));
        }
    } else if mask == BUTTON1_CLICKED || mask == BUTTON2_CLICKED || mask == BUTTON3_CLICKED
        || mask == BUTTON4_CLICKED || mask == BUTTON5_CLICKED {
        let btn = button_for(mask);
        g.push(MouseEvent::Press(btn));
        g.push(MouseEvent::Release(btn));
        proof {
            assert(g@ =~= bit_events(mask));
        }
    } else if mask == BUTTON1_DOUBLE_CLICKED || mask == BUTTON2_DOUBLE_CLICKED
        || mask == BUTTON3_DOUBLE_CLICKED || mask == BUTTON4_DOUBLE_CLICKED
        || mask == BUTTON5_DOUBLE_CLICKED {
        let btn = button_for(mask);
        let mut reps: usize = 0;
        while reps < 2
            invariant
                reps <= 2,
                g@ =~= double_prefix(btn, reps as nat),
            decreases 2 - reps,
        {
            g.push(MouseEvent::Press(btn));
            g.push(MouseEvent::Release(btn));
            reps += 1;
        }
        proof {
            assert(double_prefix(btn, 0) =~= Seq::empty());
            assert(double_prefix(btn, 1) =~= seq![MouseEvent::Press(btn), MouseEvent::Release(btn)]);
            assert(g@ =~= bit_events(mask));
        }
    } else if mask == BUTTON1_TRIPLE_CLICKED || mask == BUTTON2_TRIPLE_CLICKED
        || mask == BUTTON3_TRIPLE_CLICKED || mask == BUTTON4_TRIPLE_CLICKED
        || mask == BUTTON5_TRIPLE_CLICKED {
        let btn = button_for(mask);
        let mut reps: usize = 0;
        while reps < 3
            invariant
                reps <= 3,
                g@ =~= double_prefix(btn, reps as nat),
            decreases 3 - reps,
        {
            g.push(MouseEvent::Press(btn));
            g.push(MouseEvent::Release(btn));
            reps += 1;
        }
        proof {
            assert(double_prefix(btn, 0) =~= Seq::empty());
            assert(double_prefix(btn, 1) =~= seq![MouseEvent::Press(btn), MouseEvent::Release(btn)]);
            assert(double_prefix(btn, 2) =~= seq![
                MouseEvent::Press(btn),
                MouseEvent::Release(btn),
                MouseEvent::Press(btn),
                MouseEvent::Release(btn),
            ]);
            assert(g@ =~= bit_events(mask));
        }
    } else {
        proof {
            assert(g@ =~= bit_events(mask));
        }
    }
    g
}

/// A press/release pair of one button repeated `reps` times.
pub open spec fn double_prefix(btn: MouseButton, reps: nat) -> Seq<MouseEvent>
    decreases reps,
{
    if reps == 0 {
        Seq::empty()
    } else {
        double_prefix(btn, (reps - 1) as nat) + seq![
            MouseEvent::Press(btn),
            MouseEvent::Release(btn),
        ]
    }
}

/// The button a single isolated flag bit belongs to.
pub fn button_for(mask: u32) -> (btn: MouseButton)
    ensures
        btn == button_of_mask(mask),
{
    if mask == BUTTON1_RELEASED || mask == BUTTON1_PRESSED || mask == BUTTON1_CLICKED
        || mask == BUTTON1_DOUBLE_CLICKED || mask == BUTTON1_TRIPLE_CLICKED {
        MouseButton::Left
    } else if mask == BUTTON2_RELEASED || mask == BUTTON2_PRESSED || mask == BUTTON2_CLICKED
        || mask == BUTTON2_DOUBLE_CLICKED || mask == BUTTON2_TRIPLE_CLICKED {
        MouseButton::Middle
    } else if mask == BUTTON3_RELEASED || mask == BUTTON3_PRESSED || mask == BUTTON3_CLICKED
        || mask == BUTTON3_DOUBLE_CLICKED || mask == BUTTON3_TRIPLE_CLICKED {
        MouseButton::Right
    } else if mask == BUTTON4_RELEASED || mask == BUTTON4_PRESSED || mask == BUTTON4_CLICKED
        || mask == BUTTON4_DOUBLE_CLICKED || mask == BUTTON4_TRIPLE_CLICKED {
        MouseButton::Button4
    } else if mask == BUTTON5_RELEASED || mask == BUTTON5_PRESSED || mask == BUTTON5_CLICKED
        || mask == BUTTON5_DOUBLE_CLICKED || mask == BUTTON5_TRIPLE_CLICKED {
        MouseButton::Button5
    } else {
        MouseButton::Other
    }
}

/// The remembered last-pressed button after the given events.
fn advance_last(evs: &Vec<MouseEvent>, last: Option<MouseButton>) -> (r: Option<MouseButton>)
    ensures
        r == last_after(evs@, last),
{
    let mut cur = last;
    let mut j: usize = 0;
    while j < evs.len()
        invariant
            j <= evs@.len(),
            cur == last_after(evs@.subrange(0, j as int), last),
        decreases evs@.len() - j,
    {
        proof {
            assert(evs@.subrange(0, j + 1 as int).drop_last() =~= evs@.subrange(0, j as int));
            assert(evs@.subrange(0, j + 1 as int).last() == evs@[j as int]);
        }
        match evs[j] {
            MouseEvent::Press(b) => {
                cur = Some(b);
            },
            MouseEvent::Release(b) => {
                cur = Some(b);
            },
            _ => {},
        }
        j += 1;
    }
    proof {
        assert(evs@.subrange(0, evs@.len() as int) =~= evs@);
    }
    cur
}

/// Each event tagged with the one reported position.
fn tag_events(pos: (usize, usize), evs: &Vec<MouseEvent>) -> (out: Vec<Event>)
    ensures
        out@ == tagged(pos, evs@),
{
    let mut out: Vec<Event> = Vec::new();
    let mut j: usize = 0;
    while j < evs.len()
        invariant
            j <= evs@.len(),
            out@ =~= tagged(pos, evs@.subrange(0, j as int)),
        decreases evs@.len() - j,
    {
        out.push(Event::Mouse { pos, event: evs[j] });
        proof {
            assert(out@ =~= tagged(pos, evs@.subrange(0, j + 1 as int)));
        }
        j += 1;
    }
    proof {
        assert(evs@.subrange(0, evs@.len() as int) =~= evs@);
    }
    out
}

/// Above the highest set bit, a single-bit state contributes no further
/// events.
proof fn lemma_events_from_none(low: u32, k: u32, i: u32)
    requires
        low == 1u32 << k,
        k < 25,
        k < i,
        i <= 25,
    ensures
        events_from(low, i) == Seq::<MouseEvent>::empty(),
    decreases 25 - i,
{
    if i < 25 {
        assert(low & (1u32 << i) == 0) by (bit_vector)
            requires
                low == 1u32 << k,
                k < i,
                i < 25,
        ;
        lemma_events_from_none(low, k, (i + 1) as u32);
    }
}

/// A state with exactly one flag bit set decomposes into the events of that
/// bit alone.
pub proof fn lemma_single_bit(low: u32, k: u32, i: u32)
    requires
        low == 1u32 << k,
        k < 25,
        i <= k,
    ensures
        events_from(low, i) == bit_events(low),
    decreases 25 - i,
{
    if i == k {
        assert(low & (1u32 << i) != 0) by (bit_vector)
            requires
                low == 1u32 << k,
                i == k,
                k < 25,
        ;
        lemma_events_from_none(low, k, (i + 1) as u32);
        assert(events_from(low, i) =~= bit_events(low) + Seq::<MouseEvent>::empty());
        assert(bit_events(low) + Seq::<MouseEvent>::empty() =~= bit_events(low));
    } else {
        assert(low & (1u32 << i) == 0) by (bit_vector)
            requires
                low == 1u32 << k,
                i < k,
                k < 25,
        ;
        lemma_single_bit(low, k, (i + 1) as u32);
    }
}

/// A raw state standing for a double click of button 1 decomposes into the
/// ordered sequence press, release, press, release of the left button, and
/// leaves the left button remembered, whatever modifier flags came with it.
pub proof fn lemma_double_click_left(bstate: u32, last: Option<MouseButton>)
    requires
        stripped_state(bstate) == BUTTON1_DOUBLE_CLICKED,
    ensures
        mouse_events(stripped_state(bstate) & BUTTON_BITS) == seq![
            MouseEvent::Press(MouseButton::Left),
            MouseEvent::Release(MouseButton::Left),
            MouseEvent::Press(MouseButton::Left),
            MouseEvent::Release(MouseButton::Left),
        ],
        last_after(mouse_events(stripped_state(bstate) & BUTTON_BITS), last) == Some(
            MouseButton::Left,
        ),
{
    let s = stripped_state(bstate);
    assert(s & BUTTON_BITS == 8u32 && 8u32 == 1u32 << 3u32) by (bit_vector)
        requires
            s == 8u32,
    ;
    lemma_single_bit(8u32, 3, 0);
    let evs = mouse_events(s & BUTTON_BITS);
    assert(evs =~= seq![
        MouseEvent::Press(MouseButton::Left),
        MouseEvent::Release(MouseButton::Left),
        MouseEvent::Press(MouseButton::Left),
        MouseEvent::Release(MouseButton::Left),
    ]);
    assert(last_after(evs, last) == Some(MouseButton::Left));
}

/// A bare position report after a press with no intervening release yields
/// exactly one event: a hold of the remembered button at the new position.
pub proof fn lemma_drag_hold(
    bstate: u32,
    pos: (usize, usize),
    b: MouseButton,
    out: Seq<Event>,
    new_last: Option<MouseButton>,
)
    requires
        stripped_state(bstate) == REPORT_MOUSE_POSITION,
        mouse_post(bstate, pos, Some(b), out, new_last),
    ensures
        out == seq![Event::Mouse { pos, event: MouseEvent::Hold(b) }],
        new_last == Some(b),
{
}

/// A bare position report with no remembered button yields exactly one
/// event: an `Unknown` with an empty payload, never nothing and never a
/// panic.
pub proof fn lemma_drag_without_button(
    bstate: u32,
    pos: (usize, usize),
    out: Seq<Event>,
    new_last: Option<MouseButton>,
)
    requires
        stripped_state(bstate) == REPORT_MOUSE_POSITION,
        mouse_post(bstate, pos, None, out, new_last),
    ensures
        out.len() == 1,
        is_empty_unknown(out[0]),
        new_last is None,
{
}

/// Decodes one raw mouse state into the ordered events it stands for and
/// the new remembered button, as [`mouse_post`] states.
pub fn decode_mouse(
    bstate: u32,
    pos: (usize, usize),
    last: Option<MouseButton>,
) -> (r: (Vec<Event>, Option<MouseButton>))
    ensures
        mouse_post(bstate, pos, last, r.0@, r.1),
{
    let stripped = bstate & !(BUTTON_CTRL | BUTTON_SHIFT | BUTTON_ALT);
    if stripped == REPORT_MOUSE_POSITION {
        match last {
            Some(b) => {
                let mut out: Vec<Event> = Vec::new();
                out.push(Event::Mouse { pos, event: MouseEvent::Hold(b) });
                proof {
                    assert(out@ =~= seq![Event::Mouse { pos, event: MouseEvent::Hold(b) }]);
                }
                (out, last)
            },
            None => {
                let mut out: Vec<Event> = Vec::new();
                out.push(Event::Unknown(Vec::new()));
                (out, last)
            },
        }
    } else {
        let low = stripped & BUTTON_BITS;
        let mut evs: Vec<MouseEvent> = Vec::new();
        let mut i: u32 = 0;
        while i < 25
            invariant
                i <= 25,
                evs@ + events_from(low, i) =~= mouse_events(low),
            decreases 25 - i,
        {
            if low & (1u32 << i) != 0 {
                let mut g = bit_group(1u32 << i);
                let ghost old_evs = evs@;
                evs.append(&mut g);
                proof {
                    assert(events_from(low, i) == bit_events(1u32 << i) + events_from(
                        low,
                        (i + 1) as u32,
                    ));
                    assert(evs@ + events_from(low, (i + 1) as u32) =~= old_evs + events_from(
                        low,
                        i,
                    ));
                }
            }
            i += 1;
        }
        if evs.len() == 0 {
            let mut out: Vec<Event> = Vec::new();
            out.push(Event::Unknown(Vec::new()));
            (out, last)
        } else {
            let new_last = advance_last(&evs, last);
            let out = tag_events(pos, &evs);
            (out, new_last)
        }
    }
}

} // verus!
