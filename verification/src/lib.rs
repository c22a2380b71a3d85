//! Caps Lock as a momentary chord modifier.
//!
//! While Caps Lock is physically held, key presses are matched against a
//! registry of shortcut listeners instead of reaching the foreground
//! application, and the native Caps Lock toggle is suppressed. If Caps Lock
//! is tapped alone, a synthetic toggle is scheduled so the key still works
//! normally.
//!
//! This crate holds the verified core: the logical key table, the chord
//! registry and its matching rules, and the hook state machine that decides,
//! for every raw keyboard event, how the tracked modifier state changes and
//! whether the event is swallowed, dispatched to listeners, or followed by a
//! synthetic replay. Installing the OS hook, pumping the message loop and
//! injecting the replay are platform work that a thin unverified layer
//! performs by driving the engine.

mod chord;
mod engine;
mod keys;

pub use chord::ChordSpec;
pub use chord::InvalidModifier;
pub use chord::Keyboard;
pub use chord::Listener;
pub use chord::build_chord;
pub use chord::chord_matches;
pub use engine::Engine;
pub use engine::KeyClass;
pub use engine::ModifierState;
pub use engine::PhysQuery;
pub use engine::RawEvent;
pub use engine::Step;
pub use engine::class_of_vk;
pub use engine::resolve_swallow;
pub use keys::Key;
pub use keys::code_to_key;
pub use keys::key_to_code;
pub use keys::is_modifier_key;
