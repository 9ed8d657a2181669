//! The colour a piano key shows: its resting colour matches its kind, and
//! a pressed key is highlighted blue until it is released.

use vstd::prelude::*;
use crate::input::{KeyEvent, key_id_spec, key_id_of};
use crate::keys::{NUM_KEYS, PianoKeyType, key_kind, key_kind_at};

verus! {

/// A colour a piano key can show.
#[derive(Clone, Copy, Debug, PartialEq, Eq, Structural)]
pub enum KeyColor {
    White,
    Black,
    Blue,
}

/// The resting colour of a key of kind `k`: white keys are white, black
/// keys black.
pub open spec fn base_color_spec(k: PianoKeyType) -> KeyColor {
    match k {
        PianoKeyType::White => KeyColor::White,
        PianoKeyType::Black => KeyColor::Black,
    }
}

/// The colour of a key of kind `k` while it is pressed or after it is
/// released.
pub open spec fn highlight_color_spec(pressed: bool, k: PianoKeyType) -> KeyColor {
    if pressed {
        KeyColor::Blue
    } else {
        base_color_spec(k)
    }
}

/// The resting colour of a key of kind `k`.
pub fn key_base_color(k: PianoKeyType) -> (c: KeyColor)
    ensures
        c == base_color_spec(k),
{
    match k {
        PianoKeyType::White => KeyColor::White,
        PianoKeyType::Black => KeyColor::Black,
    }
}

/// The colour a key of kind `k` shows under a press or a release: blue
/// while pressed, and its resting colour again once released.
pub fn highlight_color(pressed: bool, k: PianoKeyType) -> (c: KeyColor)
    ensures
        c == highlight_color_spec(pressed, k),
        pressed ==> c is Blue,
        !pressed ==> c == base_color_spec(k),
{
    if pressed {
        KeyColor::Blue
    } else {
        key_base_color(k)
    }
}

/// Which key a key event falls on and the colour that key shows after it:
/// the key the typing key is mapped to, blue on a press, and the key's
/// resting colour on a release.
pub fn highlight_for_event(e: &KeyEvent) -> (r: (usize, KeyColor))
    ensures
        r.0 == key_id_spec(e.key),
        r.0 < NUM_KEYS,
        r.1 == highlight_color_spec(e.pressed, key_kind(key_id_spec(e.key))),
{
    let id = key_id_of(e.key);
    let kind = key_kind_at(id);
    let color = highlight_color(e.pressed, kind);
    (id, color)
}

/// The recolourings one frame of key events calls for, in event order:
/// each event falls on the key its typing key is mapped to.
pub fn highlight_updates(events: &Vec<KeyEvent>) -> (r: Vec<(usize, KeyColor)>)
    ensures
        r@.len() == events@.len(),
        forall|i: int|
            0 <= i < events@.len() ==> {
                &&& (#[trigger] r@[i]).0 == key_id_spec(events@[i].key)
                &&& r@[i].1 == highlight_color_spec(
                    events@[i].pressed,
                    key_kind(key_id_spec(events@[i].key)),
                )
            },
{
    let mut r: Vec<(usize, KeyColor)> = Vec::new();
    let mut i: usize = 0;
    while i < events.len()
        invariant
            i <= events@.len(),
            r@.len() == i,
            forall|j: int|
                0 <= j < i ==> {
                    &&& (#[trigger] r@[j]).0 == key_id_spec(events@[j].key)
                    &&& r@[j].1 == highlight_color_spec(
                        events@[j].pressed,
                        key_kind(key_id_spec(events@[j].key)),
                    )
                },
        decreases events@.len() - i,
    {
        let update = highlight_for_event(&events[i]);
        r.push(update);
        i = i + 1;
    }
    r
}

} // verus!
