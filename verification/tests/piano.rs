use piano::highlight::{highlight_color, highlight_for_event, key_base_color, KeyColor};
use piano::input::{input_key_at, key_id_of, InputKey, KeyEvent};
use piano::keys::{key_kind_at, piano_layout, PianoKeyType, NUM_KEYS};
use piano::menu::{start_menu_transition, AppState, MenuChoice};
use piano::input::PianoNoteEvent;
use piano::notes::{asset_file_name, asset_manifest, frequency_millihertz, note_asset_for_event, note_name};
use piano::queue::Sound;

#[test]
fn layout_has_eighteen_keys() {
    let layout = piano_layout();
    assert_eq!(layout.len(), NUM_KEYS);
    assert_eq!(layout.len(), 18);
}

#[test]
fn layout_ids_match_index() {
    let layout = piano_layout();
    for (i, p) in layout.iter().enumerate() {
        assert_eq!(p.key.0, i);
        assert_eq!(p.id.0, i);
        assert_eq!(p.key.1, key_kind_at(i));
    }
}

#[test]
fn layout_kind_pattern() {
    let expected = [
        PianoKeyType::White,
        PianoKeyType::Black,
        PianoKeyType::White,
        PianoKeyType::Black,
        PianoKeyType::White,
        PianoKeyType::White,
        PianoKeyType::Black,
        PianoKeyType::White,
        PianoKeyType::Black,
        PianoKeyType::White,
        PianoKeyType::Black,
        PianoKeyType::White,
        PianoKeyType::White,
        PianoKeyType::Black,
        PianoKeyType::White,
        PianoKeyType::Black,
        PianoKeyType::White,
        PianoKeyType::White,
    ];
    let layout = piano_layout();
    for i in 0..18 {
        assert_eq!(layout[i].key.1, expected[i]);
    }
}

#[test]
fn layout_positions_in_half_widths() {
    let expected: [i32; 18] = [
        -10, -7, -8, -5, -6, -4, -1, -2, 1, 0, 3, 2, 4, 7, 6, 9, 8, 10,
    ];
    let layout = piano_layout();
    for i in 0..18 {
        assert_eq!(layout[i].x_half, expected[i]);
    }
}

#[test]
fn white_keys_stand_left_to_right() {
    let layout = piano_layout();
    let whites: Vec<i32> = layout
        .iter()
        .filter(|p| p.key.1 == PianoKeyType::White)
        .map(|p| p.x_half)
        .collect();
    assert_eq!(whites.len(), 11);
    for w in whites.windows(2) {
        assert!(w[0] < w[1]);
    }
}

#[test]
fn key_ids_run_left_to_right() {
    let order = [
        InputKey::Q,
        InputKey::W,
        InputKey::A,
        InputKey::E,
        InputKey::S,
        InputKey::D,
        InputKey::T,
        InputKey::F,
        InputKey::Y,
        InputKey::G,
        InputKey::U,
        InputKey::H,
        InputKey::J,
        InputKey::O,
        InputKey::K,
        InputKey::P,
        InputKey::L,
        InputKey::Semicolon,
    ];
    for (i, k) in order.iter().enumerate() {
        assert_eq!(key_id_of(*k), i);
    }
}

#[test]
fn input_key_round_trip() {
    for id in 0..18 {
        assert_eq!(key_id_of(input_key_at(id)), id);
    }
}

#[test]
fn frequencies_exact() {
    let expected: [u32; 18] = [
        246942, 277183, 261626, 311127, 293665, 329628, 369994, 349228, 415305, 391995,
        466164, 440000, 493883, 554365, 523251, 622254, 587330, 659255,
    ];
    for id in 0..18 {
        assert_eq!(frequency_millihertz(id), expected[id]);
    }
}

#[test]
fn concert_pitch_sits_on_key_eleven() {
    assert_eq!(frequency_millihertz(11), 440000);
    assert_eq!(note_name(11), "A4");
}

#[test]
fn note_names_exact() {
    let expected = [
        "B3", "Cs4", "C4", "Ds4", "D4", "E4", "Fs4", "F4", "Gs4", "G4", "As4", "A4", "B4",
        "Cs5", "C5", "Ds5", "D5", "E5",
    ];
    for id in 0..18 {
        assert_eq!(note_name(id), expected[id]);
    }
}

#[test]
fn asset_names_carry_audio_suffix() {
    assert_eq!(asset_file_name(0), "B3.mp3");
    assert_eq!(asset_file_name(10), "As4.mp3");
    assert_eq!(asset_file_name(17), "E5.mp3");
}

#[test]
fn asset_manifest_lists_every_note() {
    let manifest = asset_manifest();
    assert_eq!(manifest.len(), 18);
    for (id, name) in manifest.iter().enumerate() {
        assert_eq!(*name, asset_file_name(id));
    }
    assert_eq!(manifest[0], "B3.mp3");
    assert_eq!(manifest[17], "E5.mp3");
}

#[test]
fn note_event_plays_its_keys_recording() {
    let event = PianoNoteEvent(KeyEvent { key: InputKey::H, pressed: true });
    assert_eq!(note_asset_for_event(&event), "A4.mp3");
}

#[test]
fn highlight_updates_cover_a_frame() {
    let events = vec![
        KeyEvent { key: InputKey::Q, pressed: true },
        KeyEvent { key: InputKey::W, pressed: true },
        KeyEvent { key: InputKey::Q, pressed: false },
        KeyEvent { key: InputKey::W, pressed: false },
    ];
    let updates = piano::highlight::highlight_updates(&events);
    assert_eq!(
        updates,
        vec![
            (0, KeyColor::Blue),
            (1, KeyColor::Blue),
            (0, KeyColor::White),
            (1, KeyColor::Black),
        ]
    );
}

#[test]
fn sharps_sit_on_black_keys() {
    for id in 0..18 {
        let sharp = note_name(id).contains('s');
        let black = key_kind_at(id) == PianoKeyType::Black;
        assert_eq!(sharp, black);
    }
}

#[test]
fn press_queues_note() {
    let mut s = Sound::new();
    s.press(3);
    assert_eq!(s.mix_trucks, vec![3]);
    assert!(s.contains_key(3));
}

#[test]
fn duplicate_press_ignored() {
    let mut s = Sound::new();
    s.press(3);
    s.press(5);
    s.press(3);
    assert_eq!(s.mix_trucks, vec![3, 5]);
}

#[test]
fn release_dequeues_and_keeps_order() {
    let mut s = Sound::new();
    s.press(0);
    s.press(1);
    s.press(2);
    s.release(1);
    assert_eq!(s.mix_trucks, vec![0, 2]);
    assert!(!s.contains_key(1));
}

#[test]
fn release_of_absent_key_changes_nothing() {
    let mut s = Sound::new();
    s.press(4);
    s.release(9);
    assert_eq!(s.mix_trucks, vec![4]);
}

#[test]
fn default_sound_is_empty() {
    let s = Sound::default();
    assert!(s.mix_trucks.is_empty());
}

#[test]
fn process_events_runs_presses_and_releases() {
    let mut s = Sound::new();
    let events = vec![
        KeyEvent { key: InputKey::Q, pressed: true },
        KeyEvent { key: InputKey::S, pressed: true },
        KeyEvent { key: InputKey::Q, pressed: true },
        KeyEvent { key: InputKey::D, pressed: true },
        KeyEvent { key: InputKey::S, pressed: false },
    ];
    s.process_events(&events);
    assert_eq!(s.mix_trucks, vec![0, 5]);
}

#[test]
fn start_button_enters_game() {
    assert_eq!(
        start_menu_transition(MenuChoice::StartGame),
        Some(AppState::Game)
    );
}

#[test]
fn restart_button_returns_to_menu() {
    assert_eq!(
        start_menu_transition(MenuChoice::RestartGame),
        Some(AppState::StartMenu)
    );
}

#[test]
fn settings_button_changes_no_state() {
    assert_eq!(start_menu_transition(MenuChoice::Settings), None);
}

#[test]
fn app_opens_on_start_menu() {
    assert_eq!(AppState::default(), AppState::StartMenu);
}

#[test]
fn pressed_key_turns_blue() {
    assert_eq!(highlight_color(true, PianoKeyType::White), KeyColor::Blue);
    assert_eq!(highlight_color(true, PianoKeyType::Black), KeyColor::Blue);
}

#[test]
fn released_key_returns_to_resting_color() {
    assert_eq!(highlight_color(false, PianoKeyType::White), KeyColor::White);
    assert_eq!(highlight_color(false, PianoKeyType::Black), KeyColor::Black);
    assert_eq!(
        key_base_color(PianoKeyType::White),
        highlight_color(false, PianoKeyType::White)
    );
}

#[test]
fn highlight_for_event_finds_mapped_key() {
    let press = KeyEvent { key: InputKey::S, pressed: true };
    assert_eq!(highlight_for_event(&press), (4, KeyColor::Blue));
    let release = KeyEvent { key: InputKey::W, pressed: false };
    assert_eq!(highlight_for_event(&release), (1, KeyColor::Black));
    let release_white = KeyEvent { key: InputKey::Semicolon, pressed: false };
    assert_eq!(highlight_for_event(&release_white), (17, KeyColor::White));
}

#[test]
fn toggle_chord_flips_overlay() {
    assert!(piano::debug::debug_menu_visibility(false, true, true));
    assert!(!piano::debug::debug_menu_visibility(true, true, true));
}

#[test]
fn other_input_keeps_overlay() {
    assert!(!piano::debug::debug_menu_visibility(false, true, false));
    assert!(!piano::debug::debug_menu_visibility(false, false, true));
    assert!(piano::debug::debug_menu_visibility(true, false, false));
}
