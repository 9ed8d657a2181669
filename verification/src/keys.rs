//! The piano's key set: each of the `NUM_KEYS` keys is white or black
//! following the twelve-tone octave pattern, and sits at a fixed horizontal
//! position measured in half white-key widths.

use vstd::prelude::*;

verus! {

/// How many keys the piano has.
pub const NUM_KEYS: usize = 18;

/// Whether a piano key is a white (natural) or black (accidental) key.
#[derive(Clone, Copy, Debug, PartialEq, Eq, Structural)]
pub enum PianoKeyType {
    White,
    Black,
}

/// A piano key: its index on the keyboard and its kind.
#[derive(Clone, Copy, Debug, PartialEq, Eq, Structural)]
pub struct PianoKey(pub usize, pub PianoKeyType);

/// The index of a piano key, kept as its own component.
#[derive(Clone, Copy, Debug, PartialEq, Eq, Structural)]
pub struct PianoKeyId(pub usize);

/// A music note rising from a key, identified by that key's index.
#[derive(Clone, Copy, Debug, PartialEq, Eq, Structural)]
pub struct PianoNote(pub usize);

/// The kind of the key at index `i` of a pattern that repeats every twelve
/// keys: within each octave span the black keys sit at offsets 1, 3, 6, 8
/// and 10.
pub open spec fn key_kind(i: int) -> PianoKeyType {
    let p = i % 12;
    if p == 1 || p == 3 || p == 6 || p == 8 || p == 10 {
        PianoKeyType::Black
    } else {
        PianoKeyType::White
    }
}

/// How many of the keys strictly before index `i` are white.
pub open spec fn white_count_before(i: int) -> int
    decreases i,
{
    if i <= 0 {
        0
    } else {
        white_count_before(i - 1) + if key_kind(i - 1) is White {
            1int
        } else {
            0int
        }
    }
}

/// The kind of the key at index `i`.
pub fn key_kind_at(i: usize) -> (k: PianoKeyType)
    ensures
        k == key_kind(i as int),
{
    let p = i % 12;
    if p == 1 || p == 3 || p == 6 || p == 8 || p == 10 {
        PianoKeyType::Black
    } else {
        PianoKeyType::White
    }
}

/// The horizontal centre of key `i`, in half white-key widths. The leftmost
/// white key starts five whole widths left of the origin; each white key
/// advances the cursor one width, and a black key sits half a width to the
/// right of the white-key cursor.
pub open spec fn x_half_of(i: int) -> int {
    2 * (white_count_before(i) - 5) + if key_kind(i) is White {
        0int
    } else {
        1int
    }
}

/// Where one key of the piano stands: the key itself, its index component,
/// and its horizontal centre in half white-key widths.
#[derive(Clone, Copy, Debug, PartialEq, Eq, Structural)]
pub struct KeyPlacement {
    pub key: PianoKey,
    pub id: PianoKeyId,
    pub x_half: i32,
}

/// One placement is laid out right for index `i`.
pub open spec fn placed_at(p: KeyPlacement, i: int) -> bool {
    &&& p.key.0 == i
    &&& p.key.1 == key_kind(i)
    &&& p.id.0 == i
    &&& p.x_half == x_half_of(i)
}

/// The full key layout of the piano: `NUM_KEYS` keys, in index order, each
/// with the kind and position the octave pattern assigns it.
pub fn piano_layout() -> (v: Vec<KeyPlacement>)
    ensures
        v@.len() == NUM_KEYS,
        forall|i: int| 0 <= i < NUM_KEYS ==> placed_at(#[trigger] v@[i], i),
{
    let mut v: Vec<KeyPlacement> = Vec::new();
    let mut offset: i32 = -5;
    for i in 0..NUM_KEYS
        invariant
            v@.len() == i,
            forall|j: int| 0 <= j < i ==> placed_at(#[trigger] v@[j], j),
            offset == -5 + white_count_before(i as int),
            -5 <= offset <= -5 + i,
    {
        let kind = key_kind_at(i);
        let x_half: i32 = if matches!(kind, PianoKeyType::White) {
            2 * offset
        } else {
            2 * offset + 1
        };
        if matches!(kind, PianoKeyType::White) {
            offset = offset + 1;
        }
        v.push(KeyPlacement { key: PianoKey(i, kind), id: PianoKeyId(i), x_half });
    }
    v
}

/// Later keys never have fewer white keys before them.
pub proof fn lemma_white_count_monotonic(i: int, j: int)
    requires
        0 <= i <= j,
    ensures
        white_count_before(i) <= white_count_before(j),
    decreases j - i,
{
    if i < j {
        lemma_white_count_monotonic(i, j - 1);
    }
}

/// Of the piano's eighteen keys, eleven are white.
pub proof fn lemma_white_key_count()
    ensures
        white_count_before(NUM_KEYS as int) == 11,
{
    reveal_with_fuel(white_count_before, 19);
}

/// White keys stand strictly left to right in index order: two white keys
/// never share a position.
pub proof fn lemma_white_keys_ordered(i: int, j: int)
    requires
        0 <= i < j,
        key_kind(i) is White,
        key_kind(j) is White,
    ensures
        x_half_of(i) < x_half_of(j),
{
    lemma_white_count_monotonic(i + 1, j);
    assert(white_count_before(i + 1) == white_count_before(i) + 1);
}

} // verus!
