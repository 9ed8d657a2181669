//! The note that each piano key sounds: its pitch in millihertz, its name,
//! and the name of the audio file that holds its recording.

use vstd::prelude::*;
use vstd::string::*;
use crate::input::{PianoNoteEvent, key_id_of, key_id_spec};
use crate::keys::{NUM_KEYS, key_kind};

verus! {

/// The pitch of the note sounded by piano key `id`, in millihertz of equal
/// temperament, from B3 up to E5.
pub open spec fn frequency_spec(id: int) -> int {
    if id == 0 {
        246942
    } else if id == 1 {
        277183
    } else if id == 2 {
        261626
    } else if id == 3 {
        311127
    } else if id == 4 {
        293665
    } else if id == 5 {
        329628
    } else if id == 6 {
        369994
    } else if id == 7 {
        349228
    } else if id == 8 {
        415305
    } else if id == 9 {
        391995
    } else if id == 10 {
        466164
    } else if id == 11 {
        440000
    } else if id == 12 {
        493883
    } else if id == 13 {
        554365
    } else if id == 14 {
        523251
    } else if id == 15 {
        622254
    } else if id == 16 {
        587330
    } else {
        659255
    }
}

/// The name of the note sounded by piano key `id`, a letter with its octave
/// and an `s` for a sharp.
pub open spec fn note_name_spec(id: int) -> Seq<char> {
    if id == 0 {
        "B3"@
    } else if id == 1 {
        "Cs4"@
    } else if id == 2 {
        "C4"@
    } else if id == 3 {
        "Ds4"@
    } else if id == 4 {
        "D4"@
    } else if id == 5 {
        "E4"@
    } else if id == 6 {
        "Fs4"@
    } else if id == 7 {
        "F4"@
    } else if id == 8 {
        "Gs4"@
    } else if id == 9 {
        "G4"@
    } else if id == 10 {
        "As4"@
    } else if id == 11 {
        "A4"@
    } else if id == 12 {
        "B4"@
    } else if id == 13 {
        "Cs5"@
    } else if id == 14 {
        "C5"@
    } else if id == 15 {
        "Ds5"@
    } else if id == 16 {
        "D5"@
    } else {
        "E5"@
    }
}

/// The pitch of piano key `id` in millihertz.
pub fn frequency_millihertz(id: usize) -> (f: u32)
    requires
        id < NUM_KEYS,
    ensures
        f == frequency_spec(id as int),
{
    if id == 0 {
        246942
    } else if id == 1 {
        277183
    } else if id == 2 {
        261626
    } else if id == 3 {
        311127
    } else if id == 4 {
        293665
    } else if id == 5 {
        329628
    } else if id == 6 {
        369994
    } else if id == 7 {
        349228
    } else if id == 8 {
        415305
    } else if id == 9 {
        391995
    } else if id == 10 {
        466164
    } else if id == 11 {
        440000
    } else if id == 12 {
        493883
    } else if id == 13 {
        554365
    } else if id == 14 {
        523251
    } else if id == 15 {
        622254
    } else if id == 16 {
        587330
    } else {
        659255
    }
}

/// The name of the note sounded by piano key `id`.
pub fn note_name(id: usize) -> (name: String)
    requires
        id < NUM_KEYS,
    ensures
        name@ == note_name_spec(id as int),
{
    if id == 0 {
        String::from_str("B3")
    } else if id == 1 {
        String::from_str("Cs4")
    } else if id == 2 {
        String::from_str("C4")
    } else if id == 3 {
        String::from_str("Ds4")
    } else if id == 4 {
        String::from_str("D4")
    } else if id == 5 {
        String::from_str("E4")
    } else if id == 6 {
        String::from_str("Fs4")
    } else if id == 7 {
        String::from_str("F4")
    } else if id == 8 {
        String::from_str("Gs4")
    } else if id == 9 {
        String::from_str("G4")
    } else if id == 10 {
        String::from_str("As4")
    } else if id == 11 {
        String::from_str("A4")
    } else if id == 12 {
        String::from_str("B4")
    } else if id == 13 {
        String::from_str("Cs5")
    } else if id == 14 {
        String::from_str("C5")
    } else if id == 15 {
        String::from_str("Ds5")
    } else if id == 16 {
        String::from_str("D5")
    } else {
        String::from_str("E5")
    }
}

/// The file that holds the recording of piano key `id`: the note's name
/// followed by the audio suffix.
pub fn asset_file_name(id: usize) -> (name: String)
    requires
        id < NUM_KEYS,
    ensures
        name@ == note_name_spec(id as int) + ".mp3"@,
{
    let mut name = note_name(id);
    name.append(".mp3");
    name
}

/// Every key's pitch lies between the lowest note, B3, and the highest, E5.
pub proof fn lemma_frequency_in_range(id: int)
    requires
        0 <= id < NUM_KEYS,
    ensures
        246942 <= frequency_spec(id) <= 659255,
{
}

/// The audio files loaded when sound is set up: one recording per key, in
/// key order.
pub fn asset_manifest() -> (v: Vec<String>)
    ensures
        v@.len() == NUM_KEYS,
        forall|i: int|
            0 <= i < NUM_KEYS ==> (#[trigger] v@[i])@ == note_name_spec(i) + ".mp3"@,
{
    let mut v: Vec<String> = Vec::new();
    let mut i: usize = 0;
    while i < NUM_KEYS
        invariant
            i <= NUM_KEYS,
            v@.len() == i,
            forall|j: int| 0 <= j < i ==> (#[trigger] v@[j])@ == note_name_spec(j) + ".mp3"@,
        decreases NUM_KEYS - i,
    {
        v.push(asset_file_name(i));
        i = i + 1;
    }
    v
}

/// The recording that a note event plays: the asset of the key that the
/// event's typing key is mapped to.
pub fn note_asset_for_event(e: &PianoNoteEvent) -> (name: String)
    ensures
        name@ == note_name_spec(key_id_spec(e.0.key)) + ".mp3"@,
{
    let id = key_id_of(e.0.key);
    asset_file_name(id)
}

/// The note table agrees with the key layout on accidentals: a key is
/// black exactly when the note it sounds is a sharp, marked by an `s` in
/// its name.
pub proof fn lemma_black_keys_sound_sharps(id: int)
    requires
        0 <= id < NUM_KEYS,
    ensures
        key_kind(id) is Black <==> note_name_spec(id).contains('s'),
{
    reveal_strlit("B3");
    reveal_strlit("Cs4");
    reveal_strlit("C4");
    reveal_strlit("Ds4");
    reveal_strlit("D4");
    reveal_strlit("E4");
    reveal_strlit("Fs4");
    reveal_strlit("F4");
    reveal_strlit("Gs4");
    reveal_strlit("G4");
    reveal_strlit("As4");
    reveal_strlit("A4");
    reveal_strlit("B4");
    reveal_strlit("Cs5");
    reveal_strlit("C5");
    reveal_strlit("Ds5");
    reveal_strlit("D5");
    reveal_strlit("E5");
    if key_kind(id) is Black {
        assert(note_name_spec(id)[1] == 's');
        assert(note_name_spec(id).contains('s'));
    } else {
        assert forall|i: int|
            0 <= i < note_name_spec(id).len() implies note_name_spec(id)[i] != 's' by {}
        assert(!note_name_spec(id).contains('s'));
    }
}

/// No two keys sound the same pitch.
pub proof fn lemma_frequency_injective(id1: int, id2: int)
    requires
        0 <= id1 < NUM_KEYS,
        0 <= id2 < NUM_KEYS,
        frequency_spec(id1) == frequency_spec(id2),
    ensures
        id1 == id2,
{
}

} // verus!
