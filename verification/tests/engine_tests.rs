use std::cell::RefCell;
use std::rc::Rc;

use caps_shortcut::Engine;
use caps_shortcut::Key;
use caps_shortcut::Keyboard;
use caps_shortcut::PhysQuery;
use caps_shortcut::RawEvent;
use caps_shortcut::resolve_swallow;

const VK_CAPITAL: u32 = 20;
const VK_LCONTROL: u32 = 162;
const VK_LMENU: u32 = 164;
const VK_LSHIFT: u32 = 160;
const VK_LWIN: u32 = 91;
const VK_KEY_U: u32 = 85;
const VK_KEY_I: u32 = 73;
const VK_KEY_A: u32 = 65;

/// The callbacks the driving layer keeps beside the registry, index for
/// index: a zero-argument callback for a chord entry, a predicate for a
/// raw entry.
enum Callback {
    Chord(Box<dyn FnMut()>),
    Raw(Box<dyn FnMut(Keyboard) -> bool>),
}

struct Outcome {
    swallowed: bool,
    replay: bool,
    dispatched: Option<Keyboard>,
}

fn phys(ctrl: bool, shift: bool, alt: bool, meta: bool, caps: bool) -> PhysQuery {
    PhysQuery { ctrl, shift, alt, meta, caps }
}

/// Drives one hook event the way the platform layer does: asks the engine
/// for its verdict, runs every listener over a dispatched snapshot, and
/// resolves the final swallow decision.
fn drive(
    engine: &mut Engine,
    callbacks: &mut Vec<Callback>,
    vk: u32,
    down: bool,
    p: PhysQuery,
) -> Outcome {
    let step = engine.on_event(RawEvent { vk, down }, p);
    let mut swallowed = step.swallow;
    let mut dispatched = None;
    if let Some(kb) = step.dispatch {
        let mut results = engine.dispatch_matches(&kb);
        assert_eq!(results.len(), callbacks.len());
        for (i, callback) in callbacks.iter_mut().enumerate() {
            match callback {
                Callback::Chord(f) => {
                    if results[i] {
                        f();
                    }
                }
                Callback::Raw(f) => {
                    results[i] = f(kb);
                }
            }
        }
        swallowed = resolve_swallow(step.swallow, &results);
        dispatched = Some(kb);
    }
    Outcome { swallowed, replay: step.replay, dispatched }
}

#[test]
fn caps_tap_alone_schedules_exactly_one_replay() {
    let mut engine = Engine::new();
    let mut callbacks = Vec::new();

    let down = drive(&mut engine, &mut callbacks, VK_CAPITAL, true, phys(false, false, false, false, true));
    assert!(down.swallowed);
    assert!(!down.replay);
    assert!(down.dispatched.is_none());
    assert!(engine.state.caps_held);

    let up = drive(&mut engine, &mut callbacks, VK_CAPITAL, false, phys(false, false, false, false, false));
    assert!(up.swallowed);
    assert!(up.replay);
    assert!(up.dispatched.is_none());
    assert!(!engine.state.caps_held);
    assert!(engine.state.reentrancy_guard);
}

#[test]
fn replay_window_forwards_synthetic_events_untouched() {
    let mut engine = Engine::new();
    let mut callbacks = Vec::new();

    drive(&mut engine, &mut callbacks, VK_CAPITAL, true, phys(false, false, false, false, true));
    let up = drive(&mut engine, &mut callbacks, VK_CAPITAL, false, phys(false, false, false, false, false));
    assert!(up.replay);
    assert!(engine.state.reentrancy_guard);

    // The synthetic Caps Lock keydown+keyup arrive while the guard is set:
    // nothing is swallowed, nothing changes, no second replay.
    let state_before = engine.state;
    let synth_down = drive(&mut engine, &mut callbacks, VK_CAPITAL, true, phys(false, false, false, false, true));
    assert!(!synth_down.swallowed);
    assert!(!synth_down.replay);
    assert!(synth_down.dispatched.is_none());
    let synth_up = drive(&mut engine, &mut callbacks, VK_CAPITAL, false, phys(false, false, false, false, false));
    assert!(!synth_up.swallowed);
    assert!(!synth_up.replay);
    assert_eq!(engine.state, state_before);

    // The worker clears the guard once injection returned; a later real
    // tap schedules a replay again.
    engine.unfreeze_listener();
    drive(&mut engine, &mut callbacks, VK_CAPITAL, true, phys(false, false, false, false, true));
    let up = drive(&mut engine, &mut callbacks, VK_CAPITAL, false, phys(false, false, false, false, false));
    assert!(up.replay);
}

#[test]
fn chord_key_u_fires_once_and_is_swallowed() {
    let mut engine = Engine::new();
    let fired = Rc::new(RefCell::new(0u32));
    let fired_in_callback = Rc::clone(&fired);
    engine.caps_with(Key::KeyU);
    let mut callbacks = vec![Callback::Chord(Box::new(move || {
        *fired_in_callback.borrow_mut() += 1;
    }))];

    let held = phys(false, false, false, false, true);
    let caps_down = drive(&mut engine, &mut callbacks, VK_CAPITAL, true, held);
    assert!(caps_down.swallowed);
    let u_down = drive(&mut engine, &mut callbacks, VK_KEY_U, true, held);
    assert!(u_down.swallowed, "the matched chord keydown must not be forwarded");
    assert_eq!(
        u_down.dispatched,
        Some(Keyboard { ctrl: false, shift: false, alt: false, meta: false, key: Key::KeyU }),
    );
    let u_up = drive(&mut engine, &mut callbacks, VK_KEY_U, false, held);
    assert!(!u_up.replay);
    let caps_up = drive(&mut engine, &mut callbacks, VK_CAPITAL, false, phys(false, false, false, false, false));
    assert!(caps_up.swallowed);
    assert!(!caps_up.replay, "a chord that consumed the keystroke schedules no replay");
    assert_eq!(*fired.borrow(), 1, "callback fires exactly once per matching keydown");
    assert!(!engine.state.reentrancy_guard);
}

#[test]
fn chord_dispatch_invokes_every_listener_once_per_keydown() {
    let mut engine = Engine::new();
    let seen = Rc::new(RefCell::new(Vec::new()));
    let seen_in_listener = Rc::clone(&seen);
    engine.caps_listener_with();
    let mut callbacks = vec![Callback::Raw(Box::new(move |kb| {
        seen_in_listener.borrow_mut().push(kb);
        false
    }))];

    let held = phys(false, false, false, false, true);
    drive(&mut engine, &mut callbacks, VK_CAPITAL, true, held);
    drive(&mut engine, &mut callbacks, VK_KEY_A, true, held);
    drive(&mut engine, &mut callbacks, VK_KEY_A, false, held);
    drive(&mut engine, &mut callbacks, VK_CAPITAL, false, phys(false, false, false, false, false));

    let seen = seen.borrow();
    assert_eq!(seen.len(), 1, "only the keydown inside the chord is dispatched");
    assert_eq!(
        seen[0],
        Keyboard { ctrl: false, shift: false, alt: false, meta: false, key: Key::KeyA },
    );
}

#[test]
fn chord_exact_match_ignores_extra_modifier() {
    let mut engine = Engine::new();
    let fired = Rc::new(RefCell::new(0u32));
    let fired_in_callback = Rc::clone(&fired);
    engine
        .caps_of_modifier_key_with(Key::KeyU, &vec![Key::ControlLeft])
        .unwrap();
    let mut callbacks = vec![Callback::Chord(Box::new(move || {
        *fired_in_callback.borrow_mut() += 1;
    }))];

    // Ctrl+Shift+Caps+U: the unrequested Shift must break the match.
    let held = phys(true, true, false, false, true);
    drive(&mut engine, &mut callbacks, VK_CAPITAL, true, held);
    drive(&mut engine, &mut callbacks, VK_LCONTROL, true, held);
    drive(&mut engine, &mut callbacks, VK_LSHIFT, true, held);
    let u_down = drive(&mut engine, &mut callbacks, VK_KEY_U, true, held);
    assert_eq!(
        u_down.dispatched,
        Some(Keyboard { ctrl: true, shift: true, alt: false, meta: false, key: Key::KeyU }),
    );
    assert_eq!(*fired.borrow(), 0, "exact-set equality: extra Shift must not fire the chord");
}

#[test]
fn chord_key_i_with_ctrl_alt_fires_with_expected_snapshot() {
    let mut engine = Engine::new();
    let fired = Rc::new(RefCell::new(0u32));
    let fired_in_callback = Rc::clone(&fired);
    let seen = Rc::new(RefCell::new(Vec::new()));
    let seen_in_listener = Rc::clone(&seen);
    engine
        .caps_of_modifier_key_with(Key::KeyI, &vec![Key::ControlLeft, Key::Alt])
        .unwrap();
    engine.caps_listener_with();
    let mut callbacks = vec![
        Callback::Chord(Box::new(move || {
            *fired_in_callback.borrow_mut() += 1;
        })),
        Callback::Raw(Box::new(move |kb| {
            seen_in_listener.borrow_mut().push(kb);
            false
        })),
    ];

    let held = phys(true, false, true, false, true);
    drive(&mut engine, &mut callbacks, VK_CAPITAL, true, held);
    drive(&mut engine, &mut callbacks, VK_LCONTROL, true, held);
    drive(&mut engine, &mut callbacks, VK_LMENU, true, held);
    drive(&mut engine, &mut callbacks, VK_KEY_I, true, held);

    assert_eq!(*fired.borrow(), 1);
    let seen = seen.borrow();
    assert_eq!(
        *seen.last().unwrap(),
        Keyboard { ctrl: true, shift: false, alt: true, meta: false, key: Key::KeyI },
    );
}

#[test]
fn modifier_keydown_during_chord_is_swallowed() {
    let mut engine = Engine::new();
    let mut callbacks = Vec::new();
    let held = phys(true, false, false, false, true);
    drive(&mut engine, &mut callbacks, VK_CAPITAL, true, held);
    let ctrl_down = drive(&mut engine, &mut callbacks, VK_LCONTROL, true, held);
    assert!(ctrl_down.swallowed, "modifier keydowns during a chord are swallowed by policy");
    // Outside a chord the same keydown propagates.
    let mut idle = Engine::new();
    let ctrl_down = drive(&mut idle, &mut callbacks, VK_LCONTROL, true, phys(true, false, false, false, false));
    assert!(!ctrl_down.swallowed);
}

#[test]
fn repeated_modifier_keydown_is_idempotent() {
    let mut engine = Engine::new();
    let mut callbacks = Vec::new();
    let held = phys(true, false, false, false, false);
    drive(&mut engine, &mut callbacks, VK_LCONTROL, true, held);
    assert!(engine.state.ctrl);
    let state_after_first = engine.state;
    for _ in 0..3 {
        // OS key-repeat: the keydown arrives again for the already-down key.
        drive(&mut engine, &mut callbacks, VK_LCONTROL, true, held);
        assert!(engine.state.ctrl, "the flag stays true throughout");
        assert_eq!(engine.state, state_after_first);
    }
}

#[test]
fn self_heal_clears_flags_after_missed_keyups() {
    let mut engine = Engine::new();
    let mut callbacks = Vec::new();
    drive(&mut engine, &mut callbacks, VK_LCONTROL, true, phys(true, false, false, false, false));
    drive(&mut engine, &mut callbacks, VK_CAPITAL, true, phys(true, false, false, false, true));
    assert!(engine.state.ctrl);
    assert!(engine.state.caps_held);

    // Both keyups are lost. The next processed event comes with a direct
    // platform query reporting nothing physically down: every tracked
    // modifier flag and the chord flag must clear.
    drive(&mut engine, &mut callbacks, VK_KEY_A, true, phys(false, false, false, false, false));
    assert!(!engine.state.ctrl);
    assert!(!engine.state.shift);
    assert!(!engine.state.alt);
    assert!(!engine.state.meta);
    assert!(!engine.state.caps_held);
}

#[test]
fn meta_chord_fails_fast_but_raw_listener_sees_meta() {
    let mut engine = Engine::new();
    // Meta is unsupported as an explicit chord-builder specifier.
    let err = engine
        .caps_of_modifier_key_with(Key::KeyU, &vec![Key::MetaLeft])
        .unwrap_err();
    assert_eq!(err.key, Key::MetaLeft);
    assert_eq!(engine.listeners.len(), 0, "a failed registration registers nothing");

    // A raw listener matching meta directly still works.
    let meta_matches = Rc::new(RefCell::new(0u32));
    let meta_matches_in_listener = Rc::clone(&meta_matches);
    engine.caps_listener_with();
    let mut callbacks = vec![Callback::Raw(Box::new(move |kb: Keyboard| {
        if kb.meta {
            *meta_matches_in_listener.borrow_mut() += 1;
            true
        } else {
            false
        }
    }))];

    let held = phys(false, false, false, true, true);
    drive(&mut engine, &mut callbacks, VK_CAPITAL, true, held);
    drive(&mut engine, &mut callbacks, VK_LWIN, true, held);
    let a_down = drive(&mut engine, &mut callbacks, VK_KEY_A, true, held);
    assert_eq!(*meta_matches.borrow(), 2, "the meta flag reached the raw listener");
    assert!(a_down.swallowed, "a consuming raw listener swallows the event");
}

#[test]
fn freeze_and_unfreeze_gate_all_processing() {
    let mut engine = Engine::new();
    let fired = Rc::new(RefCell::new(0u32));
    let fired_in_callback = Rc::clone(&fired);
    engine.caps_with(Key::KeyU);
    let mut callbacks = vec![Callback::Chord(Box::new(move || {
        *fired_in_callback.borrow_mut() += 1;
    }))];

    engine.freeze_listener();
    let held = phys(false, false, false, false, true);
    let caps_down = drive(&mut engine, &mut callbacks, VK_CAPITAL, true, held);
    assert!(!caps_down.swallowed);
    assert!(!engine.state.caps_held, "a frozen engine mutates no flag");
    drive(&mut engine, &mut callbacks, VK_KEY_U, true, held);
    assert_eq!(*fired.borrow(), 0, "a frozen engine dispatches nothing");

    engine.unfreeze_listener();
    drive(&mut engine, &mut callbacks, VK_CAPITAL, true, held);
    drive(&mut engine, &mut callbacks, VK_KEY_U, true, held);
    assert_eq!(*fired.borrow(), 1);
}

#[test]
fn clear_all_listener_empties_the_registry() {
    let mut engine = Engine::new();
    engine.caps_with(Key::KeyU);
    engine.caps_listener_with();
    assert_eq!(engine.listeners.len(), 2);
    engine.clear_all_listener();
    assert_eq!(engine.listeners.len(), 0);
}

#[test]
fn resolve_swallow_is_the_or_of_all_results() {
    assert!(!resolve_swallow(false, &vec![]));
    assert!(resolve_swallow(true, &vec![]));
    assert!(!resolve_swallow(false, &vec![false, false]));
    assert!(resolve_swallow(false, &vec![false, true]));
    assert!(resolve_swallow(true, &vec![false, false]));
}
