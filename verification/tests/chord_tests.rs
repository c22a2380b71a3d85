use caps_shortcut::ChordSpec;
use caps_shortcut::Key;
use caps_shortcut::Keyboard;
use caps_shortcut::build_chord;
use caps_shortcut::chord_matches;

fn snapshot(key: Key, ctrl: bool, shift: bool, alt: bool, meta: bool) -> Keyboard {
    Keyboard { ctrl, shift, alt, meta, key }
}

#[test]
fn chord_match_is_exact_set_equality() {
    let chord = ChordSpec { key: Key::KeyU, ctrl: true, shift: false, alt: false, meta: false };
    assert!(chord_matches(&chord, &snapshot(Key::KeyU, true, false, false, false)));
    // Holding an unrequested modifier breaks the match.
    assert!(!chord_matches(&chord, &snapshot(Key::KeyU, true, true, false, false)));
    assert!(!chord_matches(&chord, &snapshot(Key::KeyU, true, false, true, false)));
    assert!(!chord_matches(&chord, &snapshot(Key::KeyU, true, false, false, true)));
    // Missing the requested modifier breaks it too, as does another key.
    assert!(!chord_matches(&chord, &snapshot(Key::KeyU, false, false, false, false)));
    assert!(!chord_matches(&chord, &snapshot(Key::KeyI, true, false, false, false)));
}

#[test]
fn build_chord_with_no_modifiers() {
    let chord = build_chord(Key::KeyU, &Vec::new()).unwrap();
    assert_eq!(
        chord,
        ChordSpec { key: Key::KeyU, ctrl: false, shift: false, alt: false, meta: false },
    );
}

#[test]
fn build_chord_collapses_sides() {
    let chord = build_chord(Key::KeyI, &vec![Key::ControlRight, Key::ShiftLeft]).unwrap();
    assert_eq!(
        chord,
        ChordSpec { key: Key::KeyI, ctrl: true, shift: true, alt: false, meta: false },
    );
    let chord = build_chord(Key::KeyI, &vec![Key::ControlLeft, Key::Alt]).unwrap();
    assert_eq!(
        chord,
        ChordSpec { key: Key::KeyI, ctrl: true, shift: false, alt: true, meta: false },
    );
}

#[test]
fn build_chord_altgr_forces_ctrl_alt_and_shift() {
    let chord = build_chord(Key::KeyE, &vec![Key::AltGr]).unwrap();
    assert_eq!(
        chord,
        ChordSpec { key: Key::KeyE, ctrl: true, shift: true, alt: true, meta: false },
    );
    // The forced Shift is part of the exact match: Ctrl+Alt without Shift
    // does not fire an AltGr chord.
    assert!(!chord_matches(&chord, &snapshot(Key::KeyE, true, false, true, false)));
    assert!(chord_matches(&chord, &snapshot(Key::KeyE, true, true, true, false)));
}

#[test]
fn build_chord_rejects_meta() {
    let err = build_chord(Key::KeyU, &vec![Key::MetaLeft]).unwrap_err();
    assert_eq!(err.key, Key::MetaLeft);
    let err = build_chord(Key::KeyU, &vec![Key::ControlLeft, Key::MetaRight]).unwrap_err();
    assert_eq!(err.key, Key::MetaRight);
}

#[test]
fn build_chord_rejects_non_modifier_specifiers() {
    let err = build_chord(Key::KeyU, &vec![Key::KeyA]).unwrap_err();
    assert_eq!(err.key, Key::KeyA);
    let err = build_chord(Key::KeyU, &vec![Key::CapsLock]).unwrap_err();
    assert_eq!(err.key, Key::CapsLock);
}
