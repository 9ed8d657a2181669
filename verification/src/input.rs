//! The typing keys that play the piano, and how each one is paired with a
//! piano key index. The pairing is a bijection: every typing key names
//! exactly one of the `NUM_KEYS` piano keys.

use vstd::prelude::*;
use crate::keys::NUM_KEYS;

verus! {

/// A typing key that is mapped to a piano key, left to right across two
/// rows of the keyboard.
#[derive(Clone, Copy, Debug, PartialEq, Eq, Structural)]
pub enum InputKey {
    Q,
    W,
    A,
    E,
    S,
    D,
    T,
    F,
    Y,
    G,
    U,
    H,
    J,
    O,
    K,
    P,
    L,
    Semicolon,
}

/// A press or release of one mapped typing key.
#[derive(Clone, Copy, Debug, PartialEq, Eq, Structural)]
pub struct KeyEvent {
    pub key: InputKey,
    pub pressed: bool,
}

/// A key event wrapped as the trigger of a music note.
#[derive(Clone, Copy, Debug, PartialEq, Eq, Structural)]
pub struct PianoNoteEvent(pub KeyEvent);

/// The typing keys currently held down, in the order they were recorded.
#[derive(Debug)]
pub struct KeyInputState {
    pub keys: Vec<InputKey>,
}

/// The piano key index that a typing key plays.
pub open spec fn key_id_spec(k: InputKey) -> int {
    match k {
        InputKey::Q => 0,
        InputKey::W => 1,
        InputKey::A => 2,
        InputKey::E => 3,
        InputKey::S => 4,
        InputKey::D => 5,
        InputKey::T => 6,
        InputKey::F => 7,
        InputKey::Y => 8,
        InputKey::G => 9,
        InputKey::U => 10,
        InputKey::H => 11,
        InputKey::J => 12,
        InputKey::O => 13,
        InputKey::K => 14,
        InputKey::P => 15,
        InputKey::L => 16,
        InputKey::Semicolon => 17,
    }
}

/// The typing key that plays piano key `id`.
pub open spec fn mapped_key_spec(id: int) -> InputKey {
    if id == 0 {
        InputKey::Q
    } else if id == 1 {
        InputKey::W
    } else if id == 2 {
        InputKey::A
    } else if id == 3 {
        InputKey::E
    } else if id == 4 {
        InputKey::S
    } else if id == 5 {
        InputKey::D
    } else if id == 6 {
        InputKey::T
    } else if id == 7 {
        InputKey::F
    } else if id == 8 {
        InputKey::Y
    } else if id == 9 {
        InputKey::G
    } else if id == 10 {
        InputKey::U
    } else if id == 11 {
        InputKey::H
    } else if id == 12 {
        InputKey::J
    } else if id == 13 {
        InputKey::O
    } else if id == 14 {
        InputKey::K
    } else if id == 15 {
        InputKey::P
    } else if id == 16 {
        InputKey::L
    } else {
        InputKey::Semicolon
    }
}

/// The piano key index played by typing key `k`.
pub fn key_id_of(k: InputKey) -> (id: usize)
    ensures
        id == key_id_spec(k),
        id < NUM_KEYS,
{
    match k {
        InputKey::Q => 0,
        InputKey::W => 1,
        InputKey::A => 2,
        InputKey::E => 3,
        InputKey::S => 4,
        InputKey::D => 5,
        InputKey::T => 6,
        InputKey::F => 7,
        InputKey::Y => 8,
        InputKey::G => 9,
        InputKey::U => 10,
        InputKey::H => 11,
        InputKey::J => 12,
        InputKey::O => 13,
        InputKey::K => 14,
        InputKey::P => 15,
        InputKey::L => 16,
        InputKey::Semicolon => 17,
    }
}

/// The typing key that plays piano key `id`.
pub fn input_key_at(id: usize) -> (k: InputKey)
    requires
        id < NUM_KEYS,
    ensures
        k == mapped_key_spec(id as int),
{
    if id == 0 {
        InputKey::Q
    } else if id == 1 {
        InputKey::W
    } else if id == 2 {
        InputKey::A
    } else if id == 3 {
        InputKey::E
    } else if id == 4 {
        InputKey::S
    } else if id == 5 {
        InputKey::D
    } else if id == 6 {
        InputKey::T
    } else if id == 7 {
        InputKey::F
    } else if id == 8 {
        InputKey::Y
    } else if id == 9 {
        InputKey::G
    } else if id == 10 {
        InputKey::U
    } else if id == 11 {
        InputKey::H
    } else if id == 12 {
        InputKey::J
    } else if id == 13 {
        InputKey::O
    } else if id == 14 {
        InputKey::K
    } else if id == 15 {
        InputKey::P
    } else if id == 16 {
        InputKey::L
    } else {
        InputKey::Semicolon
    }
}

/// Every typing key names an index below `NUM_KEYS`, and the two
/// directions of the pairing invert each other: the mapping is a bijection
/// between typing keys and piano key indices.
pub proof fn lemma_key_mapping_bijective()
    ensures
        forall|k: InputKey| 0 <= #[trigger] key_id_spec(k) < NUM_KEYS,
        forall|k: InputKey| mapped_key_spec(#[trigger] key_id_spec(k)) == k,
        forall|id: int|
            0 <= id < NUM_KEYS ==> key_id_spec(#[trigger] mapped_key_spec(id)) == id,
{
}

/// Two distinct typing keys never play the same piano key.
pub proof fn lemma_key_mapping_injective(k1: InputKey, k2: InputKey)
    requires
        key_id_spec(k1) == key_id_spec(k2),
    ensures
        k1 == k2,
{
    lemma_key_mapping_bijective();
    assert(mapped_key_spec(key_id_spec(k1)) == k1);
    assert(mapped_key_spec(key_id_spec(k2)) == k2);
}

} // verus!
