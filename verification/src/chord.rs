//! Chord listeners and how a specifier list builds one.
//!
//! A chord listener matches a dispatched keyboard snapshot by exact
//! equality on the terminal key and on all four modifier flags: holding a
//! modifier the chord did not request breaks the match. The builder
//! accepts specifiers drawn from either side of Ctrl and Shift, Alt, and
//! AltGr; AltGr expands to requiring Ctrl and Alt and additionally forces
//! the built match to require Shift. Any other specifier — Meta included —
//! makes the registration fail fast.

use vstd::prelude::*;

use crate::keys::Key;

verus! {

/// A snapshot of which modifiers were down at the moment a key event was
/// dispatched, plus the logical identity of the key itself.
#[derive(Clone, Copy, Debug, PartialEq, Eq, Structural)]
pub struct Keyboard {
    pub ctrl: bool,
    pub shift: bool,
    pub alt: bool,
    pub meta: bool,
    pub key: Key,
}

/// What a chord listener requires of a snapshot: its terminal key, and the
/// exact set of modifiers that must be down — no more and no fewer.
#[derive(Clone, Copy, Debug, PartialEq, Eq, Structural)]
pub struct ChordSpec {
    pub key: Key,
    pub ctrl: bool,
    pub shift: bool,
    pub alt: bool,
    pub meta: bool,
}

/// One entry of the listener registry, in registration order.
///
/// A `Chord` entry matches snapshots by [`chord_matches`]; a `Raw` entry
/// stands for a caller-supplied predicate over the snapshot, which the
/// driving layer keeps beside the registry and evaluates itself.
#[derive(Clone, Copy, Debug, PartialEq, Eq, Structural)]
pub enum Listener {
    Chord(ChordSpec),
    Raw,
}

/// The specifier a chord registration failed fast on.
#[derive(Clone, Copy, Debug, PartialEq, Eq, Structural)]
pub struct InvalidModifier {
    pub key: Key,
}

/// Exact-set chord matching: the snapshot fires the chord iff its key and
/// all four modifier flags equal the chord's, so an unrequested modifier
/// that is down breaks the match.
pub open spec fn spec_chord_matches(c: ChordSpec, kb: Keyboard) -> bool {
    &&& kb.key == c.key
    &&& kb.ctrl == c.ctrl
    &&& kb.shift == c.shift
    &&& kb.alt == c.alt
    &&& kb.meta == c.meta
}

/// Decides whether snapshot `kb` fires the chord `c`, by exact equality on
/// the key and on every modifier flag.
pub fn chord_matches(c: &ChordSpec, kb: &Keyboard) -> (r: bool)
    ensures
        r == spec_chord_matches(*c, *kb),
{
    kb.key == c.key && kb.ctrl == c.ctrl && kb.shift == c.shift && kb.alt == c.alt
        && kb.meta == c.meta
}

/// The specifiers the chord builder accepts. Meta is not among them: a
/// chord that should watch Meta can only be a raw listener.
pub open spec fn spec_valid_specifier(k: Key) -> bool {
    ||| k is ControlLeft
    ||| k is ControlRight
    ||| k is Alt
    ||| k is ShiftLeft
    ||| k is ShiftRight
    ||| k is AltGr
}

/// Whether the one specifier `k` asks for Ctrl.
pub open spec fn spec_specifier_ctrl(k: Key) -> bool {
    k is ControlLeft || k is ControlRight || k is AltGr
}

/// Whether the one specifier `k` asks for Shift. AltGr does: the built
/// match requires Shift even though the caller never named it.
pub open spec fn spec_specifier_shift(k: Key) -> bool {
    k is ShiftLeft || k is ShiftRight || k is AltGr
}

/// Whether the one specifier `k` asks for Alt.
pub open spec fn spec_specifier_alt(k: Key) -> bool {
    k is Alt || k is AltGr
}

pub open spec fn spec_mods_valid(mods: Seq<Key>) -> bool {
    forall|i: int| 0 <= i < mods.len() ==> spec_valid_specifier(#[trigger] mods[i])
}

pub open spec fn spec_mods_ctrl(mods: Seq<Key>) -> bool {
    exists|i: int| 0 <= i < mods.len() && spec_specifier_ctrl(#[trigger] mods[i])
}

pub open spec fn spec_mods_shift(mods: Seq<Key>) -> bool {
    exists|i: int| 0 <= i < mods.len() && spec_specifier_shift(#[trigger] mods[i])
}

pub open spec fn spec_mods_alt(mods: Seq<Key>) -> bool {
    exists|i: int| 0 <= i < mods.len() && spec_specifier_alt(#[trigger] mods[i])
}

/// The chord a valid specifier list builds for terminal key `key`: each
/// modifier flag is required iff some specifier asks for it, and Meta is
/// never required.
pub open spec fn spec_chord_of(key: Key, mods: Seq<Key>) -> ChordSpec {
    ChordSpec {
        key,
        ctrl: spec_mods_ctrl(mods),
        shift: spec_mods_shift(mods),
        alt: spec_mods_alt(mods),
        meta: false,
    }
}

/// Builds the chord that `modifier_key` describes for terminal key `key`,
/// or fails fast on the first specifier outside the accepted set.
pub fn build_chord(key: Key, modifier_key: &Vec<Key>) -> (r: Result<
    ChordSpec,
    InvalidModifier,
>)
    ensures
        r is Ok <==> spec_mods_valid(modifier_key@),
        r matches Ok(c) ==> c == spec_chord_of(key, modifier_key@),
        r matches Err(e) ==> !spec_valid_specifier(e.key) && modifier_key@.contains(e.key),
{
    let mut ctrl = false;
    let mut shift = false;
    let mut alt = false;
    let mut i: usize = 0;
    while i < modifier_key.len()
        invariant
            0 <= i <= modifier_key@.len(),
            forall|j: int| 0 <= j < i ==> spec_valid_specifier(#[trigger] modifier_key@[j]),
            ctrl <==> exists|j: int|
                0 <= j < i && spec_specifier_ctrl(#[trigger] modifier_key@[j]),
            shift <==> exists|j: int|
                0 <= j < i && spec_specifier_shift(#[trigger] modifier_key@[j]),
            alt <==> exists|j: int|
                0 <= j < i && spec_specifier_alt(#[trigger] modifier_key@[j]),
        decreases modifier_key@.len() - i,
    {
        let k = modifier_key[i];
        match k {
            Key::ControlLeft | Key::ControlRight => {
                ctrl = true;
            },
            Key::Alt => {
                alt = true;
            },
            Key::ShiftLeft | Key::ShiftRight => {
                shift = true;
            },
            Key::AltGr => {
                ctrl = true;
                alt = true;
                shift = true;
            },
            _ => {
                return Err(InvalidModifier { key: k });
            },
        }
        i += 1;
    }
    Ok(ChordSpec { key, ctrl, shift, alt, meta: false })
}

} // verus!
