use term_input::decoder::{Decoder, Input};
use term_input::event::{Event, Key, Modifier, MouseButton, MouseEvent};
use term_input::keymap::{build_keymap, parse_key_name};
use term_input::mouse::{
    decode_mouse, BUTTON1_DOUBLE_CLICKED, BUTTON1_PRESSED, BUTTON1_TRIPLE_CLICKED,
    BUTTON2_CLICKED, BUTTON3_PRESSED, BUTTON4_PRESSED, BUTTON5_PRESSED, BUTTON_CTRL,
    REPORT_MOUSE_POSITION,
};

use std::collections::HashMap;

fn fresh_decoder() -> Decoder {
    Decoder::new(HashMap::new())
}

fn plain_key(k: Key) -> Event {
    Event::Key {
        key: k,
        modifier: Modifier { bits: 0 },
    }
}

#[test]
fn char_q_decodes_bare() {
    let mut d = fresh_decoder();
    let e = d.decode_input(Input::Character('q'));
    assert_eq!(e, plain_key(Key::Char('q')));
}

#[test]
fn ctrl_c_decodes_as_ctrl_letter() {
    let mut d = fresh_decoder();
    let e = d.decode_input(Input::Character('\x03'));
    assert_eq!(
        e,
        Event::Key {
            key: Key::Char('c'),
            modifier: Modifier { bits: 0b001 },
        }
    );
}

#[test]
fn control_range_decodes_as_ctrl_letters() {
    for v in 1u32..=26 {
        // The dedicated Backspace, Tab and Enter characters take their own
        // path.
        if v == 8 || v == 9 || v == 10 {
            continue;
        }
        let c = char::from_u32(v).unwrap();
        let mut d = fresh_decoder();
        let e = d.decode_input(Input::Character(c));
        let letter = char::from_u32(96 + v).unwrap();
        assert_eq!(
            e,
            Event::Key {
                key: Key::Char(letter),
                modifier: Modifier { bits: 0b001 },
            }
        );
    }
}

#[test]
fn dedicated_characters_take_their_own_keys() {
    let mut d = fresh_decoder();
    assert_eq!(d.decode_input(Input::Character('\n')), plain_key(Key::Enter));
    assert_eq!(
        d.decode_input(Input::Character('\u{7f}')),
        plain_key(Key::Backspace)
    );
    assert_eq!(
        d.decode_input(Input::Character('\u{8}')),
        plain_key(Key::Backspace)
    );
    assert_eq!(d.decode_input(Input::Character('\t')), plain_key(Key::Tab));
    assert_eq!(
        d.decode_input(Input::Character('\u{1b}')),
        plain_key(Key::Escape)
    );
}

#[test]
fn named_keys_map_one_to_one() {
    let mut d = fresh_decoder();
    assert_eq!(d.decode_input(Input::KeyUp), plain_key(Key::Up));
    assert_eq!(d.decode_input(Input::KeyNPage), plain_key(Key::PageDown));
    assert_eq!(d.decode_input(Input::KeyF7), plain_key(Key::F7));
    assert_eq!(
        d.decode_input(Input::KeySLeft),
        Event::Key {
            key: Key::Left,
            modifier: Modifier { bits: 0b010 },
        }
    );
    assert_eq!(
        d.decode_input(Input::KeyBTab),
        Event::Key {
            key: Key::Tab,
            modifier: Modifier { bits: 0b010 },
        }
    );
    assert_eq!(
        d.decode_input(Input::KeyCTab),
        Event::Key {
            key: Key::Tab,
            modifier: Modifier { bits: 0b001 },
        }
    );
    assert_eq!(
        d.decode_input(Input::KeyCATab),
        Event::Key {
            key: Key::Tab,
            modifier: Modifier { bits: 0b101 },
        }
    );
    assert_eq!(d.decode_input(Input::Other), Event::Refresh);
}

#[test]
fn resize_decodes_to_resize() {
    let mut d = fresh_decoder();
    assert_eq!(d.decode_input(Input::KeyResize), Event::Resize);
}

#[test]
fn double_click_left_decomposes_in_order() {
    let mut d = fresh_decoder();
    let first = d.decode_input(Input::Mouse {
        bstate: BUTTON1_DOUBLE_CLICKED,
        x: 3,
        y: 4,
    });
    let at = |event| Event::Mouse { pos: (3, 4), event };
    assert_eq!(first, at(MouseEvent::Press(MouseButton::Left)));
    assert_eq!(d.pending(), Some(at(MouseEvent::Release(MouseButton::Left))));
    assert_eq!(d.pending(), Some(at(MouseEvent::Press(MouseButton::Left))));
    assert_eq!(d.pending(), Some(at(MouseEvent::Release(MouseButton::Left))));
    // Drained: the decoder goes back to asking for fresh input.
    assert_eq!(d.pending(), None);
    assert_eq!(d.pending(), None);
}

#[test]
fn triple_click_yields_six_events() {
    let (events, last) = decode_mouse(BUTTON1_TRIPLE_CLICKED, (0, 0), None);
    assert_eq!(events.len(), 6);
    assert_eq!(last, Some(MouseButton::Left));
    for (i, e) in events.iter().enumerate() {
        let expected = if i % 2 == 0 {
            MouseEvent::Press(MouseButton::Left)
        } else {
            MouseEvent::Release(MouseButton::Left)
        };
        assert_eq!(
            *e,
            Event::Mouse {
                pos: (0, 0),
                event: expected,
            }
        );
    }
}

#[test]
fn drag_after_press_holds_the_button() {
    let mut d = fresh_decoder();
    let press = d.decode_input(Input::Mouse {
        bstate: BUTTON3_PRESSED,
        x: 1,
        y: 1,
    });
    assert_eq!(
        press,
        Event::Mouse {
            pos: (1, 1),
            event: MouseEvent::Press(MouseButton::Right),
        }
    );
    let hold = d.decode_input(Input::Mouse {
        bstate: REPORT_MOUSE_POSITION,
        x: 5,
        y: 6,
    });
    assert_eq!(
        hold,
        Event::Mouse {
            pos: (5, 6),
            event: MouseEvent::Hold(MouseButton::Right),
        }
    );
    assert_eq!(d.pending(), None);
}

#[test]
fn drag_without_prior_button_is_empty_unknown() {
    let mut d = fresh_decoder();
    let e = d.decode_input(Input::Mouse {
        bstate: REPORT_MOUSE_POSITION,
        x: 5,
        y: 6,
    });
    assert_eq!(e, Event::Unknown(Vec::new()));
    assert_eq!(d.pending(), None);
}

#[test]
fn wheel_events_carry_no_button() {
    let mut d = fresh_decoder();
    let up = d.decode_input(Input::Mouse {
        bstate: BUTTON4_PRESSED,
        x: 2,
        y: 2,
    });
    assert_eq!(
        up,
        Event::Mouse {
            pos: (2, 2),
            event: MouseEvent::WheelUp,
        }
    );
    let down = d.decode_input(Input::Mouse {
        bstate: BUTTON5_PRESSED,
        x: 2,
        y: 2,
    });
    assert_eq!(
        down,
        Event::Mouse {
            pos: (2, 2),
            event: MouseEvent::WheelDown,
        }
    );
    // Wheel events never update the remembered button.
    let drag = d.decode_input(Input::Mouse {
        bstate: REPORT_MOUSE_POSITION,
        x: 2,
        y: 3,
    });
    assert_eq!(drag, Event::Unknown(Vec::new()));
}

#[test]
fn simultaneous_bits_decompose_in_bit_order() {
    let mut d = fresh_decoder();
    let first = d.decode_input(Input::Mouse {
        bstate: BUTTON1_PRESSED | BUTTON2_CLICKED,
        x: 7,
        y: 8,
    });
    let at = |event| Event::Mouse { pos: (7, 8), event };
    assert_eq!(first, at(MouseEvent::Press(MouseButton::Left)));
    assert_eq!(d.pending(), Some(at(MouseEvent::Press(MouseButton::Middle))));
    assert_eq!(
        d.pending(),
        Some(at(MouseEvent::Release(MouseButton::Middle)))
    );
    assert_eq!(d.pending(), None);
    // The last press or release wins the remembered button.
    let hold = d.decode_input(Input::Mouse {
        bstate: REPORT_MOUSE_POSITION,
        x: 9,
        y: 9,
    });
    assert_eq!(
        hold,
        Event::Mouse {
            pos: (9, 9),
            event: MouseEvent::Hold(MouseButton::Middle),
        }
    );
}

#[test]
fn modifier_flags_are_stripped_from_mouse_states() {
    let mut d = fresh_decoder();
    let e = d.decode_input(Input::Mouse {
        bstate: BUTTON1_PRESSED | BUTTON_CTRL,
        x: 0,
        y: 0,
    });
    assert_eq!(
        e,
        Event::Mouse {
            pos: (0, 0),
            event: MouseEvent::Press(MouseButton::Left),
        }
    );
}

#[test]
fn empty_mouse_decomposition_is_empty_unknown() {
    let mut d = fresh_decoder();
    let e = d.decode_input(Input::Mouse { bstate: 0, x: 0, y: 0 });
    assert_eq!(e, Event::Unknown(Vec::new()));
}

#[test]
fn mouse_query_failure_carries_the_code_bytes() {
    let mut d = fresh_decoder();
    let e = d.decode_input(Input::MouseError(-7));
    assert_eq!(e, Event::Unknown((-7i32).to_le_bytes().to_vec()));
}

#[test]
fn unknown_code_round_trips_through_bytes() {
    for code in [0i32, 1, -1, 209, 513, 70000, i32::MAX, i32::MIN] {
        let mut d = fresh_decoder();
        let e = d.decode_input(Input::Unknown(code));
        match e {
            Event::Unknown(bytes) => {
                assert_eq!(bytes.len(), 4);
                let back = i32::from_le_bytes([bytes[0], bytes[1], bytes[2], bytes[3]]);
                assert_eq!(back, code);
            }
            other => panic!("expected an unknown event, got {:?}", other),
        }
    }
}

#[test]
fn keymap_hit_resolves_extended_code() {
    let names = vec![(513i32, String::from("kRIT5"))];
    let keymap = build_keymap(&names);
    assert_eq!(
        keymap.get(&513),
        Some(&(Key::Right, Modifier { bits: 0b001 }))
    );
    let mut d = Decoder::new(keymap);
    // The backend reports extended codes offset by 304.
    let e = d.decode_input(Input::Unknown(513 - 304));
    assert_eq!(
        e,
        Event::Key {
            key: Key::Right,
            modifier: Modifier { bits: 0b001 },
        }
    );
}

#[test]
fn unrecognized_base_mnemonic_creates_no_entry() {
    let names = vec![(513i32, String::from("kXYZ3"))];
    let keymap = build_keymap(&names);
    assert!(keymap.is_empty());
}

#[test]
fn key_name_parsing_follows_the_fixed_tables() {
    assert_eq!(
        parse_key_name("kRIT5"),
        Some((Key::Right, Modifier { bits: 0b001 }))
    );
    assert_eq!(
        parse_key_name("kUP3"),
        Some((Key::Up, Modifier { bits: 0b100 }))
    );
    assert_eq!(
        parse_key_name("kEND6"),
        Some((Key::End, Modifier { bits: 0b011 }))
    );
    assert_eq!(
        parse_key_name("kHOM7"),
        Some((Key::Home, Modifier { bits: 0b111 }))
    );
    assert_eq!(
        parse_key_name("kDC4"),
        Some((Key::Delete, Modifier { bits: 0b110 }))
    );
    // A digit outside the recognized table yields no entry; neither does a
    // name without the marker, a bare mnemonic, or an empty name.
    assert_eq!(parse_key_name("kDC8"), None);
    assert_eq!(parse_key_name("kDC2"), None);
    assert_eq!(parse_key_name("xRIT5"), None);
    assert_eq!(parse_key_name("kRIT"), None);
    assert_eq!(parse_key_name("k"), None);
    assert_eq!(parse_key_name(""), None);
}

#[test]
fn mouse_event_button_accessor() {
    assert_eq!(
        MouseEvent::Press(MouseButton::Left).button(),
        Some(MouseButton::Left)
    );
    assert_eq!(
        MouseEvent::Release(MouseButton::Button5).button(),
        Some(MouseButton::Button5)
    );
    assert_eq!(
        MouseEvent::Hold(MouseButton::Middle).button(),
        Some(MouseButton::Middle)
    );
    assert_eq!(MouseEvent::WheelUp.button(), None);
    assert_eq!(MouseEvent::WheelDown.button(), None);
}

#[test]
fn modifiers_combine_as_bitsets() {
    assert_eq!(Modifier::default(), Modifier { bits: 0 });
    assert_eq!(Modifier::none().bits, 0);
    assert_eq!(Modifier::ctrl().union(Modifier::shift()).bits, 0b011);
    assert_eq!(
        Modifier::ctrl().union(Modifier::shift()).union(Modifier::alt()).bits,
        0b111
    );
    assert!(Modifier::ctrl().has_ctrl());
    assert!(!Modifier::shift().has_ctrl());
}

#[test]
fn event_key_helper_has_no_modifier() {
    assert_eq!(Event::key(Key::Enter), plain_key(Key::Enter));
}

#[test]
fn events_clone_equal() {
    let e = Event::Unknown(vec![1, 2, 3, 4]);
    assert_eq!(e.clone(), e);
    let m = Event::Mouse {
        pos: (1, 2),
        event: MouseEvent::Hold(MouseButton::Left),
    };
    assert_eq!(m.clone(), m);
}
