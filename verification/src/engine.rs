//! The hook state machine.
//!
//! The engine owns the process-wide tracked state — which modifiers are
//! physically down, whether Caps Lock is being held as a chord prefix,
//! whether any non-modifier key occurred during the chord, and the
//! reentrancy guard — together with the listener registry. For every raw
//! keyboard event the driving layer feeds in, [`Engine::on_event`] decides
//! how the flags change, whether the event is swallowed outright, whether
//! it is dispatched to the listeners, and whether a synthetic Caps Lock
//! toggle replay must be scheduled. The driving layer performs the
//! decisions: it forwards or drops the OS event, runs the listeners over
//! the dispatched snapshot, and injects the replay on a worker.

use vstd::prelude::*;

use crate::chord::ChordSpec;
use crate::chord::InvalidModifier;
use crate::chord::Keyboard;
use crate::chord::Listener;
use crate::chord::build_chord;
use crate::chord::chord_matches;
use crate::chord::spec_chord_matches;
use crate::chord::spec_chord_of;
use crate::chord::spec_mods_valid;
use crate::chord::spec_valid_specifier;
use crate::keys::Key;
use crate::keys::code_to_key;
use crate::keys::spec_key_of_code;

verus! {

/// Virtual-key code of Caps Lock.
pub const VK_CAPITAL: u32 = 20;

/// Virtual-key codes reported for Shift: the generic code and each side.
pub const VK_SHIFT: u32 = 16;

pub const VK_LSHIFT: u32 = 160;

pub const VK_RSHIFT: u32 = 161;

/// Virtual-key codes reported for Ctrl: the generic code and each side.
pub const VK_CONTROL: u32 = 17;

pub const VK_LCONTROL: u32 = 162;

pub const VK_RCONTROL: u32 = 163;

/// Virtual-key codes reported for Alt: the generic code and each side.
pub const VK_MENU: u32 = 18;

pub const VK_LMENU: u32 = 164;

pub const VK_RMENU: u32 = 165;

/// Virtual-key codes of the two Meta (OS) keys.
pub const VK_LWIN: u32 = 91;

pub const VK_RWIN: u32 = 92;

/// The classes of virtual-key codes the state machine tells apart.
/// Left/right variants collapse to one logical modifier each; everything
/// that is not Caps Lock or a modifier is `Other`.
#[derive(Clone, Copy, Debug, PartialEq, Eq, Structural)]
pub enum KeyClass {
    Caps,
    Ctrl,
    Shift,
    Alt,
    Meta,
    Other,
}

pub open spec fn spec_class_of_vk(vk: u32) -> KeyClass {
    if vk == VK_CAPITAL {
        KeyClass::Caps
    } else if vk == VK_CONTROL || vk == VK_LCONTROL || vk == VK_RCONTROL {
        KeyClass::Ctrl
    } else if vk == VK_SHIFT || vk == VK_LSHIFT || vk == VK_RSHIFT {
        KeyClass::Shift
    } else if vk == VK_MENU || vk == VK_LMENU || vk == VK_RMENU {
        KeyClass::Alt
    } else if vk == VK_LWIN || vk == VK_RWIN {
        KeyClass::Meta
    } else {
        KeyClass::Other
    }
}

/// Classifies a raw virtual-key code for the state machine.
pub fn class_of_vk(vk: u32) -> (c: KeyClass)
    ensures
        c == spec_class_of_vk(vk),
{
    if vk == VK_CAPITAL {
        KeyClass::Caps
    } else if vk == VK_CONTROL || vk == VK_LCONTROL || vk == VK_RCONTROL {
        KeyClass::Ctrl
    } else if vk == VK_SHIFT || vk == VK_LSHIFT || vk == VK_RSHIFT {
        KeyClass::Shift
    } else if vk == VK_MENU || vk == VK_LMENU || vk == VK_RMENU {
        KeyClass::Alt
    } else if vk == VK_LWIN || vk == VK_RWIN {
        KeyClass::Meta
    } else {
        KeyClass::Other
    }
}

/// The tracked flags. `caps_held` is true iff a Caps Lock keydown has been
/// observed without its keyup; `other_key_during_chord` is true iff some
/// non-modifier keydown occurred while `caps_held` was set, since the last
/// Caps Lock keydown; while `reentrancy_guard` is set the engine mutates
/// nothing and dispatches nothing.
#[derive(Clone, Copy, Debug, PartialEq, Eq, Structural)]
pub struct ModifierState {
    pub ctrl: bool,
    pub shift: bool,
    pub alt: bool,
    pub meta: bool,
    pub caps_held: bool,
    pub other_key_during_chord: bool,
    pub reentrancy_guard: bool,
}

/// One raw keyboard event as the low-level hook receives it: the virtual-key
/// code and whether this is a key-press transition (key-repeat presses
/// included) or a release.
#[derive(Clone, Copy, Debug, PartialEq, Eq, Structural)]
pub struct RawEvent {
    pub vk: u32,
    pub down: bool,
}

/// What a direct platform query reports as physically held down at the
/// moment an event is processed. The driving layer fills this from the
/// OS's own key-state functions; it is the backstop against missed keyups.
#[derive(Clone, Copy, Debug, PartialEq, Eq, Structural)]
pub struct PhysQuery {
    pub ctrl: bool,
    pub shift: bool,
    pub alt: bool,
    pub meta: bool,
    pub caps: bool,
}

/// The engine's verdict on one event.
#[derive(Clone, Copy, Debug, PartialEq, Eq)]
pub struct Step {
    /// Whether the chord/modifier policy alone already demands that the
    /// event be swallowed. For an event with a dispatched snapshot the
    /// final verdict is [`resolve_swallow`] of this flag and the listener
    /// results; for any other event this flag is final.
    pub swallow: bool,
    /// Whether a synthetic Caps Lock keydown+keyup replay must be
    /// scheduled on a worker. The guard is already set when this is true;
    /// the worker clears it with [`Engine::unfreeze_listener`] once the
    /// injection returned.
    pub replay: bool,
    /// `Some(kb)` iff every registered listener must now be invoked, in
    /// registration order, with the snapshot `kb`.
    pub dispatch: Option<Keyboard>,
}

pub open spec fn spec_apply_down(st: ModifierState, c: KeyClass) -> ModifierState {
    match c {
        KeyClass::Caps => ModifierState { caps_held: true, ..st },
        KeyClass::Ctrl => ModifierState { ctrl: true, ..st },
        KeyClass::Shift => ModifierState { shift: true, ..st },
        KeyClass::Alt => ModifierState { alt: true, ..st },
        KeyClass::Meta => ModifierState { meta: true, ..st },
        KeyClass::Other => if st.caps_held {
            ModifierState { other_key_during_chord: true, ..st }
        } else {
            st
        },
    }
}

pub open spec fn spec_apply_up(st: ModifierState, c: KeyClass) -> ModifierState {
    match c {
        KeyClass::Caps => ModifierState {
            caps_held: false,
            other_key_during_chord: false,
            reentrancy_guard: st.reentrancy_guard || !st.other_key_during_chord,
            ..st
        },
        KeyClass::Ctrl => ModifierState { ctrl: false, ..st },
        KeyClass::Shift => ModifierState { shift: false, ..st },
        KeyClass::Alt => ModifierState { alt: false, ..st },
        KeyClass::Meta => ModifierState { meta: false, ..st },
        KeyClass::Other => st,
    }
}

/// Whether the platform query reports no modifier and no Caps Lock
/// physically down.
pub open spec fn spec_none_down(p: PhysQuery) -> bool {
    !p.ctrl && !p.shift && !p.alt && !p.meta && !p.caps
}

/// The consistency backstop: when the platform reports nothing physically
/// down, the four modifier flags and the chord flag are forcibly cleared.
/// The chord-progress flag and the guard are not its to touch.
pub open spec fn spec_heal(st: ModifierState, p: PhysQuery) -> ModifierState {
    if spec_none_down(p) {
        ModifierState {
            ctrl: false,
            shift: false,
            alt: false,
            meta: false,
            caps_held: false,
            ..st
        }
    } else {
        st
    }
}

/// The tracked state after one event: unchanged under the guard, else the
/// per-class transition followed by the self-heal backstop.
pub open spec fn spec_next(st: ModifierState, ev: RawEvent, p: PhysQuery) -> ModifierState {
    if st.reentrancy_guard {
        st
    } else {
        let c = spec_class_of_vk(ev.vk);
        spec_heal(if ev.down { spec_apply_down(st, c) } else { spec_apply_up(st, c) }, p)
    }
}

/// Whether the event schedules a synthetic toggle replay: exactly on a
/// Caps Lock keyup outside the guard while no non-modifier key has been
/// seen during the chord.
pub open spec fn spec_replay(st: ModifierState, ev: RawEvent) -> bool {
    &&& !st.reentrancy_guard
    &&& !ev.down
    &&& spec_class_of_vk(ev.vk) is Caps
    &&& !st.other_key_during_chord
}

/// The swallow verdict the policy alone mandates, before listener results:
/// every Caps Lock transition is swallowed; a modifier keydown is
/// swallowed iff the chord is active; everything else propagates unless a
/// listener consumes it.
pub open spec fn spec_policy_swallow(st: ModifierState, ev: RawEvent) -> bool {
    if st.reentrancy_guard {
        false
    } else {
        let c = spec_class_of_vk(ev.vk);
        if ev.down {
            match c {
                KeyClass::Caps => true,
                KeyClass::Other => false,
                _ => st.caps_held,
            }
        } else {
            c is Caps
        }
    }
}

/// The snapshot dispatched to the listeners: present exactly for a keydown
/// outside the guard while the chord is active, and carrying the modifier
/// flags as tracked right after the event's own update, with the event's
/// logical key.
pub open spec fn spec_dispatch(st: ModifierState, ev: RawEvent) -> Option<Keyboard> {
    if !st.reentrancy_guard && ev.down && st.caps_held {
        let s = spec_apply_down(st, spec_class_of_vk(ev.vk));
        Some(
            Keyboard {
                ctrl: s.ctrl,
                shift: s.shift,
                alt: s.alt,
                meta: s.meta,
                key: spec_key_of_code(ev.vk),
            },
        )
    } else {
        None
    }
}

/// The interception engine: the tracked flags and the listener registry,
/// as one owned instance. The driving layer holds the single process-wide
/// instance and feeds it every hook event.
pub struct Engine {
    pub state: ModifierState,
    pub listeners: Vec<Listener>,
}

impl Engine {
    /// A fresh engine: nothing tracked down, no chord, guard clear, and an
    /// empty registry.
    pub fn new() -> (e: Engine)
        ensures
            e.state == (ModifierState {
                ctrl: false,
                shift: false,
                alt: false,
                meta: false,
                caps_held: false,
                other_key_during_chord: false,
                reentrancy_guard: false,
            }),
            e.listeners@ == Seq::<Listener>::empty(),
    {
        Engine {
            state: ModifierState {
                ctrl: false,
                shift: false,
                alt: false,
                meta: false,
                caps_held: false,
                other_key_during_chord: false,
                reentrancy_guard: false,
            },
            listeners: Vec::new(),
        }
    }

    /// Processes one raw keyboard event: updates the tracked flags per the
    /// state machine, applies the self-heal backstop, and returns the
    /// verdict — policy swallow, replay to schedule, snapshot to dispatch.
    ///
    /// Under the reentrancy guard nothing changes and nothing is decided:
    /// the event is the driving layer's to forward untouched.
    pub fn on_event(&mut self, ev: RawEvent, phys: PhysQuery) -> (r: Step)
        ensures
            final(self).listeners@ == old(self).listeners@,
            final(self).state == spec_next(old(self).state, ev, phys),
            r.swallow == spec_policy_swallow(old(self).state, ev),
            r.replay == spec_replay(old(self).state, ev),
            r.dispatch == spec_dispatch(old(self).state, ev),
    {
        if self.state.reentrancy_guard {
            return Step { swallow: false, replay: false, dispatch: None };
        }
        let pre = self.state;
        let c = class_of_vk(ev.vk);
        let mut replay = false;
        let swallow: bool;
        if ev.down {
            match c {
                KeyClass::Caps => {
                    self.state.caps_held = true;
                    swallow = true;
                },
                KeyClass::Ctrl => {
                    self.state.ctrl = true;
                    swallow = pre.caps_held;
                },
                KeyClass::Shift => {
                    self.state.shift = true;
                    swallow = pre.caps_held;
                },
                KeyClass::Alt => {
                    self.state.alt = true;
                    swallow = pre.caps_held;
                },
                KeyClass::Meta => {
                    self.state.meta = true;
                    swallow = pre.caps_held;
                },
                KeyClass::Other => {
                    if pre.caps_held {
                        self.state.other_key_during_chord = true;
                    }
                    swallow = false;
                },
            }
        } else {
            match c {
                KeyClass::Caps => {
                    self.state.caps_held = false;
                    if !pre.other_key_during_chord {
                        self.state.reentrancy_guard = true;
                        replay = true;
                    }
                    self.state.other_key_during_chord = false;
                    swallow = true;
                },
                KeyClass::Ctrl => {
                    self.state.ctrl = false;
                    swallow = false;
                },
                KeyClass::Shift => {
                    self.state.shift = false;
                    swallow = false;
                },
                KeyClass::Alt => {
                    self.state.alt = false;
                    swallow = false;
                },
                KeyClass::Meta => {
                    self.state.meta = false;
                    swallow = false;
                },
                KeyClass::Other => {
                    swallow = false;
                },
            }
        }
        let dispatch = if ev.down && pre.caps_held {
            Some(
                Keyboard {
                    ctrl: self.state.ctrl,
                    shift: self.state.shift,
                    alt: self.state.alt,
                    meta: self.state.meta,
                    key: code_to_key(ev.vk),
                },
            )
        } else {
            None
        };
        if !phys.ctrl && !phys.shift && !phys.alt && !phys.meta && !phys.caps {
            self.state.ctrl = false;
            self.state.shift = false;
            self.state.alt = false;
            self.state.meta = false;
            self.state.caps_held = false;
        }
        Step { swallow, replay, dispatch }
    }

    /// Registers a chord listener for `key` with the given modifier
    /// specifiers, or fails fast — registering nothing — on a specifier
    /// the chord builder does not accept. The caller keeps the callback to
    /// fire beside the registry, at this listener's index.
    pub fn caps_of_modifier_key_with(&mut self, key: Key, modifier_key: &Vec<Key>) -> (r: Result<
        (),
        InvalidModifier,
    >)
        ensures
            final(self).state == old(self).state,
            r is Ok <==> spec_mods_valid(modifier_key@),
            r is Ok ==> final(self).listeners@ == old(self).listeners@.push(
                Listener::Chord(spec_chord_of(key, modifier_key@)),
            ),
            r matches Err(e) ==> final(self).listeners@ == old(self).listeners@
                && !spec_valid_specifier(e.key) && modifier_key@.contains(e.key),
    {
        match build_chord(key, modifier_key) {
            Ok(c) => {
                self.listeners.push(Listener::Chord(c));
                Ok(())
            },
            Err(e) => Err(e),
        }
    }

    /// Registers a chord listener for `key` alone: the chord fires only
    /// when no modifier at all is down with it.
    pub fn caps_with(&mut self, key: Key)
        ensures
            final(self).state == old(self).state,
            final(self).listeners@ == old(self).listeners@.push(
                Listener::Chord(
                    ChordSpec { key, ctrl: false, shift: false, alt: false, meta: false },
                ),
            ),
    {
        self.listeners.push(
            Listener::Chord(ChordSpec { key, ctrl: false, shift: false, alt: false, meta: false }),
        );
    }

    /// Registers a raw listener slot. The caller keeps the predicate
    /// beside the registry, at this listener's index, and evaluates it on
    /// every dispatched snapshot.
    pub fn caps_listener_with(&mut self)
        ensures
            final(self).state == old(self).state,
            final(self).listeners@ == old(self).listeners@.push(Listener::Raw),
    {
        self.listeners.push(Listener::Raw);
    }

    /// Drops every registered listener. The tracked flags are untouched.
    pub fn clear_all_listener(&mut self)
        ensures
            final(self).state == old(self).state,
            final(self).listeners@ == Seq::<Listener>::empty(),
    {
        self.listeners.clear();
    }

    /// Freezes the engine: future events mutate nothing and dispatch
    /// nothing until [`Engine::unfreeze_listener`]. This is the same flag
    /// the replay window uses, so freezing mid-replay and unfreezing ends
    /// the replay window with it.
    pub fn freeze_listener(&mut self)
        ensures
            final(self).state == (ModifierState { reentrancy_guard: true, ..old(self).state }),
            final(self).listeners@ == old(self).listeners@,
    {
        self.state.reentrancy_guard = true;
    }

    /// Clears the guard: events mutate and dispatch again. The replay
    /// worker calls this once the synthetic injection has returned.
    pub fn unfreeze_listener(&mut self)
        ensures
            final(self).state == (ModifierState { reentrancy_guard: false, ..old(self).state }),
            final(self).listeners@ == old(self).listeners@,
    {
        self.state.reentrancy_guard = false;
    }

    /// Evaluates every chord listener, in registration order, against a
    /// dispatched snapshot: result `i` is whether listener `i` is a chord
    /// the snapshot fires. A raw entry's result is `false` here — its
    /// predicate lives with the driving layer, which overwrites that slot
    /// with the predicate's own verdict before resolving the swallow.
    pub fn dispatch_matches(&self, kb: &Keyboard) -> (r: Vec<bool>)
        ensures
            r@.len() == self.listeners@.len(),
            forall|i: int|
                0 <= i < r@.len() ==> #[trigger] r@[i] == (self.listeners@[i] matches
                    Listener::Chord(c)
                && spec_chord_matches(c, *kb)),
    {
        let mut out: Vec<bool> = Vec::new();
        let mut i: usize = 0;
        while i < self.listeners.len()
            invariant
                0 <= i <= self.listeners@.len(),
                out@.len() == i,
                forall|j: int|
                    0 <= j < i ==> #[trigger] out@[j] == (self.listeners@[j] matches
                        Listener::Chord(c)
                    && spec_chord_matches(c, *kb)),
            decreases self.listeners@.len() - i,
        {
            let m = match &self.listeners[i] {
                Listener::Chord(c) => chord_matches(c, kb),
                Listener::Raw => false,
            };
            out.push(m);
            i += 1;
        }
        out
    }
}

/// The overall intercept decision for a dispatched event: the logical OR
/// of every listener's verdict together with what the policy already
/// mandated. No listener short-circuits another.
pub fn resolve_swallow(policy: bool, results: &Vec<bool>) -> (r: bool)
    ensures
        r == (policy || exists|i: int| 0 <= i < results@.len() && #[trigger] results@[i]),
{
    let mut any = false;
    let mut i: usize = 0;
    while i < results.len()
        invariant
            0 <= i <= results@.len(),
            any == exists|j: int| 0 <= j < i && #[trigger] results@[j],
        decreases results@.len() - i,
    {
        if results[i] {
            any = true;
        }
        i += 1;
    }
    policy || any
}

/// Law: a Caps Lock tap alone — keydown then keyup with no other key in
/// between — schedules exactly one synthetic toggle replay, at the keyup,
/// and dispatches no chord; both events are swallowed, and the keyup
/// leaves the guard set for the replay window.
pub proof fn lemma_caps_tap_alone(
    st: ModifierState,
    down: RawEvent,
    up: RawEvent,
    pd: PhysQuery,
    pu: PhysQuery,
)
    requires
        !st.reentrancy_guard,
        !st.caps_held,
        !st.other_key_during_chord,
        spec_class_of_vk(down.vk) is Caps,
        down.down,
        spec_class_of_vk(up.vk) is Caps,
        !up.down,
        pd.caps,  // Caps Lock is physically down while its own keydown is processed
    ensures
        ({
            let s1 = spec_next(st, down, pd);
            &&& !spec_replay(st, down)
            &&& spec_replay(s1, up)
            &&& spec_dispatch(st, down) is None
            &&& spec_dispatch(s1, up) is None
            &&& spec_policy_swallow(st, down)
            &&& spec_policy_swallow(s1, up)
            &&& spec_next(s1, up, pu).reentrancy_guard
        }),
{
}

/// Law: only a Caps Lock keyup can schedule a replay. No keydown — Caps
/// Lock repeats included — and no other key's release ever does, so a tap
/// schedules exactly one.
pub proof fn lemma_replay_only_on_caps_up(st: ModifierState, ev: RawEvent)
    ensures
        spec_replay(st, ev) ==> !ev.down && spec_class_of_vk(ev.vk) is Caps,
{
}

/// Law: in a chord Caps-down, X-down, X-up, Caps-up with X a non-modifier
/// key, no step schedules a replay — the chord consumed the keystroke —
/// and exactly the X keydown is dispatched, with a snapshot carrying the
/// modifier flags as tracked at that moment and X's logical key.
pub proof fn lemma_chord_consumes_toggle(
    st: ModifierState,
    caps_down: RawEvent,
    x_down: RawEvent,
    x_up: RawEvent,
    caps_up: RawEvent,
    p1: PhysQuery,
    p2: PhysQuery,
    p3: PhysQuery,
    p4: PhysQuery,
)
    requires
        !st.reentrancy_guard,
        !st.caps_held,
        !st.other_key_during_chord,
        spec_class_of_vk(caps_down.vk) is Caps,
        caps_down.down,
        spec_class_of_vk(x_down.vk) is Other,
        x_down.down,
        spec_class_of_vk(x_up.vk) is Other,
        !x_up.down,
        spec_class_of_vk(caps_up.vk) is Caps,
        !caps_up.down,
        p1.caps,
        p2.caps,
        p3.caps,  // Caps Lock stays physically down until its keyup
    ensures
        ({
            let s1 = spec_next(st, caps_down, p1);
            let s2 = spec_next(s1, x_down, p2);
            let s3 = spec_next(s2, x_up, p3);
            &&& !spec_replay(st, caps_down)
            &&& !spec_replay(s1, x_down)
            &&& !spec_replay(s2, x_up)
            &&& !spec_replay(s3, caps_up)
            &&& spec_dispatch(st, caps_down) is None
            &&& spec_dispatch(s1, x_down) == Some(
                Keyboard {
                    ctrl: s1.ctrl,
                    shift: s1.shift,
                    alt: s1.alt,
                    meta: s1.meta,
                    key: spec_key_of_code(x_down.vk),
                },
            )
            &&& spec_dispatch(s2, x_up) is None
            &&& spec_dispatch(s3, caps_up) is None
        }),
{
}

/// Law: keydown processing is idempotent. Feeding the same keydown twice,
/// under the same platform query, leaves the tracked state exactly where
/// the first occurrence left it — an OS key-repeat for an already-down
/// key flips no flag observably.
pub proof fn lemma_keydown_idempotent(st: ModifierState, ev: RawEvent, p: PhysQuery)
    requires
        ev.down,
    ensures
        spec_next(spec_next(st, ev, p), ev, p) == spec_next(st, ev, p),
{
}

/// Law: the backstop self-heals. If the direct platform query reports no
/// modifier and no Caps Lock physically down, then processing any event
/// outside the guard leaves all four modifier flags and the chord flag
/// false, even if some keyup was missed.
pub proof fn lemma_self_heal(st: ModifierState, ev: RawEvent, p: PhysQuery)
    requires
        !st.reentrancy_guard,
        spec_none_down(p),
    ensures
        ({
            let s = spec_next(st, ev, p);
            &&& !s.ctrl
            &&& !s.shift
            &&& !s.alt
            &&& !s.meta
            &&& !s.caps_held
        }),
{
}

} // verus!
