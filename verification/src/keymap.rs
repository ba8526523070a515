//! The keymap table: a mapping from backend-specific extended key codes to
//! pre-resolved key/modifier pairs, derived from the symbolic names the
//! backend reports for those codes.
//!
//! A recognized name is the escape-key marker `k`, a base mnemonic out of a
//! fixed set of ten, and one trailing modifier digit.

use std::collections::HashMap;

use vstd::prelude::*;

use crate::event::{Key, Modifier, MOD_ALT, MOD_CTRL, MOD_SHIFT};

verus! {

broadcast use vstd::std_specs::hash::group_hash_axioms;

/// The key a base mnemonic stands for, when it is one of the ten recognized
/// mnemonics.
pub open spec fn base_key(t: Seq<char>) -> Option<Key> {
    if t == seq!['D', 'C'] {
        Some(Key::Delete)
    } else if t == seq!['D', 'N'] {
        Some(Key::Down)
    } else if t == seq!['E', 'N', 'D'] {
        Some(Key::End)
    } else if t == seq!['H', 'O', 'M'] {
        Some(Key::Home)
    } else if t == seq!['I', 'C'] {
        Some(Key::Insert)
    } else if t == seq!['L', 'F', 'T'] {
        Some(Key::Left)
    } else if t == seq!['N', 'X', 'T'] {
        Some(Key::PageDown)
    } else if t == seq!['P', 'R', 'V'] {
        Some(Key::PageUp)
    } else if t == seq!['R', 'I', 'T'] {
        Some(Key::Right)
    } else if t == seq!['U', 'P'] {
        Some(Key::Up)
    } else {
        None
    }
}

/// The modifier combination a trailing digit encodes, when it is one of the
/// five recognized digits.
pub open spec fn digit_modifier(c: char) -> Option<Modifier> {
    if c == '3' {
        Some(Modifier { bits: 0b100 })
    } else if c == '4' {
        Some(Modifier { bits: 0b110 })
    } else if c == '5' {
        Some(Modifier { bits: 0b001 })
    } else if c == '6' {
        Some(Modifier { bits: 0b011 })
    } else if c == '7' {
        Some(Modifier { bits: 0b111 })
    } else {
        None
    }
}

/// The keymap entry a symbolic key name yields: the name must start with
/// the escape-key marker `k`, its core must be a recognized base mnemonic,
/// and its last character must be a recognized modifier digit.
pub open spec fn name_entry(s: Seq<char>) -> Option<(Key, Modifier)> {
    if s.len() < 2 || s[0] != 'k' {
        None
    } else {
        match base_key(s.subrange(1, s.len() - 1)) {
            Some(k) => match digit_modifier(s[s.len() - 1]) {
                Some(m) => Some((k, m)),
                None => None,
            },
            None => None,
        }
    }
}

/// Parses one symbolic key name into the keymap entry it yields, if any.
pub fn parse_key_name(name: &str) -> (r: Option<(Key, Modifier)>)
    ensures
        r == name_entry(name@),
{
    let n = name.unicode_len();
    if n < 4 || n > 5 {
        proof {
            if name@.len() >= 2 {
                let t = name@.subrange(1, name@.len() - 1);
                assert(t.len() == name@.len() - 2);
                assert(base_key(t) is None);
            }
        }
        return None;
    }
    if name.get_char(0) != 'k' {
        return None;
    }
    let digit = name.get_char(n - 1);
    let md = if digit == '3' {
        Modifier { bits: 0b100 }
    } else if digit == '4' {
        Modifier { bits: 0b110 }
    } else if digit == '5' {
        Modifier { bits: 0b001 }
    } else if digit == '6' {
        Modifier { bits: 0b011 }
    } else if digit == '7' {
        Modifier { bits: 0b111 }
    } else {
        return None;
    };
    if n == 4 {
        let c1 = name.get_char(1);
        let c2 = name.get_char(2);
        proof {
            assert(name@.subrange(1, 3) =~= seq![c1, c2]);
        }
        let key = if c1 == 'D' && c2 == 'C' {
            Key::Delete
        } else if c1 == 'D' && c2 == 'N' {
            Key::Down
        } else if c1 == 'I' && c2 == 'C' {
            Key::Insert
        } else if c1 == 'U' && c2 == 'P' {
            Key::Up
        } else {
            return None;
        };
        Some((key, md))
    } else {
        let c1 = name.get_char(1);
        let c2 = name.get_char(2);
        let c3 = name.get_char(3);
        proof {
            assert(name@.subrange(1, 4) =~= seq![c1, c2, c3]);
        }
        let key = if c1 == 'E' && c2 == 'N' && c3 == 'D' {
            Key::End
        } else if c1 == 'H' && c2 == 'O' && c3 == 'M' {
            Key::Home
        } else if c1 == 'L' && c2 == 'F' && c3 == 'T' {
            Key::Left
        } else if c1 == 'N' && c2 == 'X' && c3 == 'T' {
            Key::PageDown
        } else if c1 == 'P' && c2 == 'R' && c3 == 'V' {
            Key::PageUp
        } else if c1 == 'R' && c2 == 'I' && c3 == 'T' {
            Key::Right
        } else {
            return None;
        };
        Some((key, md))
    }
}

/// The keymap a list of (code, symbolic name) pairs yields: every pair whose
/// name parses contributes an entry for its code, later pairs winning over
/// earlier ones on the same code.
pub open spec fn keymap_of(pairs: Seq<(i32, String)>) -> Map<i32, (Key, Modifier)>
    decreases pairs.len(),
{
    if pairs.len() == 0 {
        Map::empty()
    } else {
        let m = keymap_of(pairs.drop_last());
        match name_entry(pairs.last().1@) {
            Some(e) => m.insert(pairs.last().0, e),
            None => m,
        }
    }
}

/// Builds the keymap table from the (code, symbolic name) pairs a backend
/// reports.
pub fn build_keymap(names: &Vec<(i32, String)>) -> (m: HashMap<i32, (Key, Modifier)>)
    ensures
        m@ == keymap_of(names@),
{
    let mut m: HashMap<i32, (Key, Modifier)> = HashMap::new();
    proof {
        assert(names@.subrange(0, 0) =~= Seq::<(i32, String)>::empty());
        assert(m@ =~= keymap_of(names@.subrange(0, 0)));
    }
    let mut i: usize = 0;
    while i < names.len()
        invariant
            i <= names@.len(),
            m@ == keymap_of(names@.subrange(0, i as int)),
        decreases names@.len() - i,
    {
        let pair: &(i32, String) = &names[i];
        match parse_key_name(pair.1.as_str()) {
            Some((key, md)) => {
                m.insert(pair.0, (key, md));
            },
            None => {},
        }
        proof {
            assert(names@.subrange(0, i + 1 as int).drop_last() =~= names@.subrange(0, i as int));
            assert(names@.subrange(0, i + 1 as int).last() == names@[i as int]);
        }
        i += 1;
    }
    proof {
        assert(names@.subrange(0, names@.len() as int) =~= names@);
    }
    m
}

/// When every pair carries a code within a range, the keymap it yields has
/// entries only for codes within that range.
pub proof fn lemma_keymap_keys_in_range(pairs: Seq<(i32, String)>, lo: i32, hi: i32)
    requires
        forall|j: int| 0 <= j < pairs.len() ==> lo <= (#[trigger] pairs[j]).0 < hi,
    ensures
        forall|c: i32| #[trigger] keymap_of(pairs).contains_key(c) ==> lo <= c < hi,
    decreases pairs.len(),
{
    if pairs.len() == 0 {
        assert forall|c: i32| #[trigger] keymap_of(pairs).contains_key(c) implies lo <= c < hi by {
            assert(!Map::<i32, (Key, Modifier)>::empty().contains_key(c));
        }
    } else {
        assert(forall|j: int|
            0 <= j < pairs.drop_last().len() ==> lo <= (#[trigger] pairs.drop_last()[j]).0 < hi);
        lemma_keymap_keys_in_range(pairs.drop_last(), lo, hi);
        assert(pairs.last() == pairs[pairs.len() - 1]);
        assert forall|c: i32| #[trigger] keymap_of(pairs).contains_key(c) implies lo <= c < hi by {
            match name_entry(pairs.last().1@) {
                Some(e) => {
                    assert(keymap_of(pairs) == keymap_of(pairs.drop_last()).insert(
                        pairs.last().0,
                        e,
                    ));
                    if c != pairs.last().0 {
                        assert(keymap_of(pairs.drop_last()).contains_key(c));
                    }
                },
                None => {
                    assert(keymap_of(pairs) == keymap_of(pairs.drop_last()));
                },
            }
        }
    }
}

/// Relies on pancurses::keyname: the symbolic name the backend gives a key
/// code, or nothing when the code has none. The answer depends on the
/// terminal description loaded at session start, so nothing more is assumed
/// of it.
#[verifier::external_body]
fn key_name(code: i32) -> (r: Option<String>) {
    pancurses::keyname(code)
}

/// Builds the keymap table by asking the backend for the symbolic name of
/// every extended key code in the backend-defined range and keeping the
/// entries of the names that parse.
pub fn backend_keymap() -> (m: HashMap<i32, (Key, Modifier)>)
    ensures
        exists|names: Seq<(i32, String)>| m@ == keymap_of(names),
        forall|c: i32| #[trigger] m@.contains_key(c) ==> 512 <= c < 1024,
{
    let mut names: Vec<(i32, String)> = Vec::new();
    let mut code: i32 = 512;
    while code < 1024
        invariant
            512 <= code <= 1024,
            forall|j: int| 0 <= j < names@.len() ==> 512 <= (#[trigger] names@[j]).0 < 1024,
        decreases 1024 - code,
    {
        match key_name(code) {
            Some(name) => {
                names.push((code, name));
            },
            None => {},
        }
        code += 1;
    }
    let m = build_keymap(&names);
    proof {
        assert(m@ == keymap_of(names@));
        lemma_keymap_keys_in_range(names@, 512, 1024);
    }
    m
}

} // verus!
