//! Hotkey handling: key names, modifier groups, and the state machine that
//! turns raw keyboard events into hotkey press and release events.

use vstd::prelude::*;
use std::collections::HashSet;

use crate::config::HotkeyConfig;
use crate::text::{
    ascii_lowercase, lemma_ascii_lowercase_idempotent, lowercase, str_eq, to_lowercase,
};
use vstd::utf8::is_ascii_chars;

verus! {

broadcast use vstd::std_specs::hash::group_hash_axioms;

// Linux input key codes (linux/input-event-codes.h), as carried by evdev's
// `KeyCode` constants of the same names.
pub const KEY_SPACE: u16 = 57;
pub const KEY_A: u16 = 30;
pub const KEY_B: u16 = 48;
pub const KEY_C: u16 = 46;
pub const KEY_D: u16 = 32;
pub const KEY_E: u16 = 18;
pub const KEY_F: u16 = 33;
pub const KEY_G: u16 = 34;
pub const KEY_H: u16 = 35;
pub const KEY_I: u16 = 23;
pub const KEY_J: u16 = 36;
pub const KEY_K: u16 = 37;
pub const KEY_L: u16 = 38;
pub const KEY_M: u16 = 50;
pub const KEY_N: u16 = 49;
pub const KEY_O: u16 = 24;
pub const KEY_P: u16 = 25;
pub const KEY_Q: u16 = 16;
pub const KEY_R: u16 = 19;
pub const KEY_S: u16 = 31;
pub const KEY_T: u16 = 20;
pub const KEY_U: u16 = 22;
pub const KEY_V: u16 = 47;
pub const KEY_W: u16 = 17;
pub const KEY_X: u16 = 45;
pub const KEY_Y: u16 = 21;
pub const KEY_Z: u16 = 44;
pub const KEY_F1: u16 = 59;
pub const KEY_F2: u16 = 60;
pub const KEY_F3: u16 = 61;
pub const KEY_F4: u16 = 62;
pub const KEY_F5: u16 = 63;
pub const KEY_F6: u16 = 64;
pub const KEY_F7: u16 = 65;
pub const KEY_F8: u16 = 66;
pub const KEY_F9: u16 = 67;
pub const KEY_F10: u16 = 68;
pub const KEY_F11: u16 = 87;
pub const KEY_F12: u16 = 88;
pub const KEY_LEFTCTRL: u16 = 29;
pub const KEY_RIGHTCTRL: u16 = 97;
pub const KEY_LEFTSHIFT: u16 = 42;
pub const KEY_RIGHTSHIFT: u16 = 54;
pub const KEY_LEFTALT: u16 = 56;
pub const KEY_RIGHTALT: u16 = 100;
pub const KEY_LEFTMETA: u16 = 125;
pub const KEY_RIGHTMETA: u16 = 126;

/// The event type of key events (`EV_KEY`).
pub const EV_KEY: u16 = 1;

/// The key code that a lowercase key name stands for.
pub open spec fn key_code_of(name: Seq<char>) -> Option<u16> {
    if name == "space"@ {
        Some(KEY_SPACE)
    } else if name == "a"@ {
        Some(KEY_A)
    } else if name == "b"@ {
        Some(KEY_B)
    } else if name == "c"@ {
        Some(KEY_C)
    } else if name == "d"@ {
        Some(KEY_D)
    } else if name == "e"@ {
        Some(KEY_E)
    } else if name == "f"@ {
        Some(KEY_F)
    } else if name == "g"@ {
        Some(KEY_G)
    } else if name == "h"@ {
        Some(KEY_H)
    } else if name == "i"@ {
        Some(KEY_I)
    } else if name == "j"@ {
        Some(KEY_J)
    } else if name == "k"@ {
        Some(KEY_K)
    } else if name == "l"@ {
        Some(KEY_L)
    } else if name == "m"@ {
        Some(KEY_M)
    } else if name == "n"@ {
        Some(KEY_N)
    } else if name == "o"@ {
        Some(KEY_O)
    } else if name == "p"@ {
        Some(KEY_P)
    } else if name == "q"@ {
        Some(KEY_Q)
    } else if name == "r"@ {
        Some(KEY_R)
    } else if name == "s"@ {
        Some(KEY_S)
    } else if name == "t"@ {
        Some(KEY_T)
    } else if name == "u"@ {
        Some(KEY_U)
    } else if name == "v"@ {
        Some(KEY_V)
    } else if name == "w"@ {
        Some(KEY_W)
    } else if name == "x"@ {
        Some(KEY_X)
    } else if name == "y"@ {
        Some(KEY_Y)
    } else if name == "z"@ {
        Some(KEY_Z)
    } else if name == "f1"@ {
        Some(KEY_F1)
    } else if name == "f2"@ {
        Some(KEY_F2)
    } else if name == "f3"@ {
        Some(KEY_F3)
    } else if name == "f4"@ {
        Some(KEY_F4)
    } else if name == "f5"@ {
        Some(KEY_F5)
    } else if name == "f6"@ {
        Some(KEY_F6)
    } else if name == "f7"@ {
        Some(KEY_F7)
    } else if name == "f8"@ {
        Some(KEY_F8)
    } else if name == "f9"@ {
        Some(KEY_F9)
    } else if name == "f10"@ {
        Some(KEY_F10)
    } else if name == "f11"@ {
        Some(KEY_F11)
    } else if name == "f12"@ {
        Some(KEY_F12)
    } else {
        None
    }
}

/// The key code for a key name that is already lowercase.
pub fn key_from_lowercase_name(name: &str) -> (r: Option<u16>)
    ensures
        r == key_code_of(name@),
{
    if str_eq(name, "space") {
        Some(KEY_SPACE)
    } else if str_eq(name, "a") {
        Some(KEY_A)
    } else if str_eq(name, "b") {
        Some(KEY_B)
    } else if str_eq(name, "c") {
        Some(KEY_C)
    } else if str_eq(name, "d") {
        Some(KEY_D)
    } else if str_eq(name, "e") {
        Some(KEY_E)
    } else if str_eq(name, "f") {
        Some(KEY_F)
    } else if str_eq(name, "g") {
        Some(KEY_G)
    } else if str_eq(name, "h") {
        Some(KEY_H)
    } else if str_eq(name, "i") {
        Some(KEY_I)
    } else if str_eq(name, "j") {
        Some(KEY_J)
    } else if str_eq(name, "k") {
        Some(KEY_K)
    } else if str_eq(name, "l") {
        Some(KEY_L)
    } else if str_eq(name, "m") {
        Some(KEY_M)
    } else if str_eq(name, "n") {
        Some(KEY_N)
    } else if str_eq(name, "o") {
        Some(KEY_O)
    } else if str_eq(name, "p") {
        Some(KEY_P)
    } else if str_eq(name, "q") {
        Some(KEY_Q)
    } else if str_eq(name, "r") {
        Some(KEY_R)
    } else if str_eq(name, "s") {
        Some(KEY_S)
    } else if str_eq(name, "t") {
        Some(KEY_T)
    } else if str_eq(name, "u") {
        Some(KEY_U)
    } else if str_eq(name, "v") {
        Some(KEY_V)
    } else if str_eq(name, "w") {
        Some(KEY_W)
    } else if str_eq(name, "x") {
        Some(KEY_X)
    } else if str_eq(name, "y") {
        Some(KEY_Y)
    } else if str_eq(name, "z") {
        Some(KEY_Z)
    } else if str_eq(name, "f1") {
        Some(KEY_F1)
    } else if str_eq(name, "f2") {
        Some(KEY_F2)
    } else if str_eq(name, "f3") {
        Some(KEY_F3)
    } else if str_eq(name, "f4") {
        Some(KEY_F4)
    } else if str_eq(name, "f5") {
        Some(KEY_F5)
    } else if str_eq(name, "f6") {
        Some(KEY_F6)
    } else if str_eq(name, "f7") {
        Some(KEY_F7)
    } else if str_eq(name, "f8") {
        Some(KEY_F8)
    } else if str_eq(name, "f9") {
        Some(KEY_F9)
    } else if str_eq(name, "f10") {
        Some(KEY_F10)
    } else if str_eq(name, "f11") {
        Some(KEY_F11)
    } else if str_eq(name, "f12") {
        Some(KEY_F12)
    } else {
        None
    }
}

/// Maps a configured key name, in any case, to its key code.
pub fn key_from_name(name: &str) -> (r: Option<u16>)
    ensures
        r == key_code_of(lowercase(name@)),
        is_ascii_chars(name@) ==> r == key_code_of(ascii_lowercase(name@)),
{
    let lower = to_lowercase(name);
    key_from_lowercase_name(lower.as_str())
}

/// The key codes that satisfy a lowercase modifier name: any one of them held
/// counts as the modifier being held. Unknown names have none.
pub open spec fn modifier_codes_of(name: Seq<char>) -> Seq<u16> {
    if name == "super"@ || name == "meta"@ || name == "super_l"@ {
        seq![KEY_LEFTMETA, KEY_RIGHTMETA]
    } else if name == "ctrl"@ || name == "control"@ {
        seq![KEY_LEFTCTRL, KEY_RIGHTCTRL]
    } else if name == "alt"@ {
        seq![KEY_LEFTALT, KEY_RIGHTALT]
    } else if name == "shift"@ {
        seq![KEY_LEFTSHIFT, KEY_RIGHTSHIFT]
    } else {
        seq![]
    }
}

/// The modifier key codes for a modifier name that is already lowercase.
pub fn modifier_keycodes_lowercase(name: &str) -> (r: Vec<u16>)
    ensures
        r@ == modifier_codes_of(name@),
{
    if str_eq(name, "super") || str_eq(name, "meta") || str_eq(name, "super_l") {
        vec![KEY_LEFTMETA, KEY_RIGHTMETA]
    } else if str_eq(name, "ctrl") || str_eq(name, "control") {
        vec![KEY_LEFTCTRL, KEY_RIGHTCTRL]
    } else if str_eq(name, "alt") {
        vec![KEY_LEFTALT, KEY_RIGHTALT]
    } else if str_eq(name, "shift") {
        vec![KEY_LEFTSHIFT, KEY_RIGHTSHIFT]
    } else {
        Vec::new()
    }
}

/// Maps a configured modifier name, in any case, to its alternative key codes.
pub fn modifier_keycodes(name: &str) -> (r: Vec<u16>)
    ensures
        r@ == modifier_codes_of(lowercase(name@)),
        is_ascii_chars(name@) ==> r@ == modifier_codes_of(ascii_lowercase(name@)),
{
    let lower = to_lowercase(name);
    modifier_keycodes_lowercase(lower.as_str())
}

/// A hotkey transition reported to the dictation loop.
#[derive(Debug, Clone, Copy, PartialEq, Eq, Structural)]
pub enum HotkeyEvent {
    Pressed,
    Released,
}

/// Why a hotkey configuration cannot be used.
#[derive(Debug, Clone, PartialEq, Eq)]
pub enum HotkeyError {
    /// The key name is not one of the known keys.
    UnknownKey(String),
    /// The first modifier name, in configuration order, that is unknown.
    UnknownModifier(String),
    /// The configuration names no modifier at all.
    NoModifiers,
}

impl HotkeyError {
    /// The message that reports this error.
    pub fn message(&self) -> (r: String)
        ensures
            r@ == match self {
                HotkeyError::UnknownKey(k) => "Unknown key: "@ + k@,
                HotkeyError::UnknownModifier(m) => "Unknown modifier: "@ + m@,
                HotkeyError::NoModifiers => "No valid modifiers configured"@,
            },
    {
        match self {
            HotkeyError::UnknownKey(k) => {
                let mut r = String::from_str("Unknown key: ");
                r.append(k.as_str());
                r
            },
            HotkeyError::UnknownModifier(m) => {
                let mut r = String::from_str("Unknown modifier: ");
                r.append(m.as_str());
                r
            },
            HotkeyError::NoModifiers => String::from_str("No valid modifiers configured"),
        }
    }
}

/// The resolved hotkey: the trigger key and, for each configured modifier,
/// the group of key codes any one of which satisfies it.
#[derive(Debug, Clone)]
pub struct HotkeySpec {
    pub trigger: u16,
    pub modifier_groups: Vec<Vec<u16>>,
}

/// The groups of a hotkey as sequences of key codes.
pub open spec fn groups_view(groups: Seq<Vec<u16>>) -> Seq<Seq<u16>> {
    groups.map_values(|g: Vec<u16>| g@)
}

/// A modifier name (in any case) that names a known modifier.
pub open spec fn modifier_known(name: Seq<char>) -> bool {
    modifier_codes_of(lowercase(name)).len() > 0
}

/// Resolves a hotkey configuration. The key is checked first, then each
/// modifier in order; a configuration without modifiers is refused.
pub fn resolve_hotkey(config: &HotkeyConfig) -> (r: Result<HotkeySpec, HotkeyError>)
    ensures
        match r {
            Ok(h) => {
                &&& key_code_of(lowercase(config.key@)) == Some(h.trigger)
                &&& config.modifiers@.len() > 0
                &&& h.modifier_groups@.len() == config.modifiers@.len()
                &&& forall|i: int|
                    0 <= i < config.modifiers@.len() ==> {
                        &&& modifier_known(#[trigger] config.modifiers@[i]@)
                        &&& h.modifier_groups@[i]@ == modifier_codes_of(
                            lowercase(config.modifiers@[i]@),
                        )
                    }
            },
            Err(HotkeyError::UnknownKey(k)) => {
                &&& key_code_of(lowercase(config.key@)) is None
                &&& k@ == config.key@
            },
            Err(HotkeyError::UnknownModifier(m)) => {
                &&& key_code_of(lowercase(config.key@)) is Some
                &&& exists|i: int|
                    0 <= i < config.modifiers@.len() && !modifier_known(
                        #[trigger] config.modifiers@[i]@,
                    ) && m@ == config.modifiers@[i]@ && forall|j: int|
                        0 <= j < i ==> modifier_known(#[trigger] config.modifiers@[j]@)
            },
            Err(HotkeyError::NoModifiers) => {
                &&& key_code_of(lowercase(config.key@)) is Some
                &&& config.modifiers@.len() == 0
            },
        },
{
    let trigger: u16 = match key_from_name(config.key.as_str()) {
        Some(k) => k,
        None => {
            return Err(HotkeyError::UnknownKey(config.key.clone()));
        },
    };
    let mut groups: Vec<Vec<u16>> = Vec::new();
    let n: usize = config.modifiers.len();
    let mut i: usize = 0;
    while i < n
        invariant
            n == config.modifiers@.len(),
            i <= n,
            groups@.len() == i,
            key_code_of(lowercase(config.key@)) == Some(trigger),
            forall|j: int|
                0 <= j < i ==> {
                    &&& modifier_known(#[trigger] config.modifiers@[j]@)
                    &&& groups@[j]@ == modifier_codes_of(lowercase(config.modifiers@[j]@))
                },
        decreases n - i,
    {
        let codes = modifier_keycodes(config.modifiers[i].as_str());
        if codes.len() == 0 {
            assert(!modifier_known(config.modifiers@[i as int]@));
            return Err(HotkeyError::UnknownModifier(config.modifiers[i].clone()));
        }
        groups.push(codes);
        i = i + 1;
    }
    if groups.len() == 0 {
        return Err(HotkeyError::NoModifiers);
    }
    Ok(HotkeySpec { trigger, modifier_groups: groups })
}

/// The abstract state of the hotkey tracker.
pub struct HotkeyState {
    /// The trigger key.
    pub trigger: u16,
    /// The modifier groups: each needs one of its keys held.
    pub groups: Seq<Seq<u16>>,
    /// The keys currently held down.
    pub held: Set<u16>,
    /// Whether the hotkey is currently reported as held.
    pub trigger_held: bool,
}

/// At least one key of the group is held.
pub open spec fn group_satisfied(group: Seq<u16>, held: Set<u16>) -> bool {
    exists|j: int| 0 <= j < group.len() && #[trigger] held.contains(group[j])
}

/// Every modifier group has at least one of its keys held.
pub open spec fn mods_satisfied(groups: Seq<Seq<u16>>, held: Set<u16>) -> bool {
    forall|i: int| 0 <= i < groups.len() ==> #[trigger] group_satisfied(groups[i], held)
}

/// The key code belongs to some modifier group.
pub open spec fn is_modifier_code(groups: Seq<Seq<u16>>, code: u16) -> bool {
    exists|i: int, j: int|
        #![trigger groups[i][j]]
        0 <= i < groups.len() && 0 <= j < groups[i].len() && groups[i][j] == code
}

/// The held keys after a key event: value 1 presses the key, value 0 releases
/// it, any other value (auto-repeat) changes nothing.
pub open spec fn held_after(held: Set<u16>, code: u16, value: i32) -> Set<u16> {
    if value == 1 {
        held.insert(code)
    } else if value == 0 {
        held.remove(code)
    } else {
        held
    }
}

/// What one input event does: the next state and the hotkey transition it
/// reports, if any. Events that are not key events change nothing. Pressing
/// the trigger while every modifier group is satisfied and the hotkey is not
/// held reports `Pressed`; releasing the trigger while held reports
/// `Released`; releasing a modifier key while held so that some group is no
/// longer satisfied also reports `Released`.
pub open spec fn step(s: HotkeyState, event_type: u16, code: u16, value: i32) -> (
    HotkeyState,
    Option<HotkeyEvent>,
) {
    if event_type != EV_KEY {
        (s, None)
    } else {
        let held = held_after(s.held, code, value);
        let sat = mods_satisfied(s.groups, held);
        let ev = if code == s.trigger && value == 1 && !s.trigger_held && sat {
            Some(HotkeyEvent::Pressed)
        } else if code == s.trigger && value == 0 && s.trigger_held {
            Some(HotkeyEvent::Released)
        } else if value == 0 && s.trigger_held && is_modifier_code(s.groups, code) && !sat {
            Some(HotkeyEvent::Released)
        } else {
            None
        };
        let trigger_held = match ev {
            Some(HotkeyEvent::Pressed) => true,
            Some(HotkeyEvent::Released) => false,
            None => s.trigger_held,
        };
        (HotkeyState { trigger: s.trigger, groups: s.groups, held, trigger_held }, ev)
    }
}

/// The invariant of the tracker: while the hotkey is reported held, every
/// modifier group has a key down.
pub open spec fn hold_invariant(s: HotkeyState) -> bool {
    s.trigger_held ==> mods_satisfied(s.groups, s.held)
}

/// Follows the key events of a listener: which keys are held, and whether
/// the hotkey is currently held.
pub struct HotkeyTracker {
    trigger: u16,
    modifier_groups: Vec<Vec<u16>>,
    keys_held: HashSet<u16>,
    trigger_held: bool,
}

impl View for HotkeyTracker {
    type V = HotkeyState;

    closed spec fn view(&self) -> HotkeyState {
        HotkeyState {
            trigger: self.trigger,
            groups: groups_view(self.modifier_groups@),
            held: self.keys_held@,
            trigger_held: self.trigger_held,
        }
    }
}

impl HotkeyTracker {
    /// The tracker keeps its invariant.
    pub closed spec fn wf(&self) -> bool {
        hold_invariant(self@)
    }

    /// A tracker for a resolved hotkey: no key held, hotkey not held.
    pub fn new(spec: HotkeySpec) -> (r: Self)
        ensures
            r.wf(),
            r@.trigger == spec.trigger,
            r@.groups == groups_view(spec.modifier_groups@),
            r@.held == Set::<u16>::empty(),
            !r@.trigger_held,
    {
        let t = HotkeyTracker {
            trigger: spec.trigger,
            modifier_groups: spec.modifier_groups,
            keys_held: HashSet::new(),
            trigger_held: false,
        };
        assert(t.keys_held@ =~= Set::<u16>::empty());
        t
    }

    /// Whether the hotkey is currently held.
    pub fn is_held(&self) -> (r: bool)
        ensures
            r == self@.trigger_held,
    {
        self.trigger_held
    }

    fn all_mods_satisfied(&self) -> (r: bool)
        ensures
            r == mods_satisfied(self@.groups, self@.held),
    {
        let ghost groups = self@.groups;
        let n: usize = self.modifier_groups.len();
        let mut i: usize = 0;
        while i < n
            invariant
                n == self.modifier_groups@.len(),
                groups == groups_view(self.modifier_groups@),
                i <= n,
                forall|k: int| 0 <= k < i ==> #[trigger] group_satisfied(groups[k], self.keys_held@),
            decreases n - i,
        {
            let group = &self.modifier_groups[i];
            assert(groups[i as int] == group@);
            let m: usize = group.len();
            let mut j: usize = 0;
            let mut found = false;
            while j < m
                invariant
                    n == groups.len(),
                    i < n,
                    m == group@.len(),
                    groups[i as int] == group@,
                    j <= m,
                    found ==> exists|x: int|
                        0 <= x < group@.len() && #[trigger] self.keys_held@.contains(group@[x]),
                    !found ==> forall|x: int| 0 <= x < j ==> !self.keys_held@.contains(group@[x]),
                decreases m - j,
            {
                if self.keys_held.contains(&group[j]) {
                    found = true;
                }
                j = j + 1;
            }
            if found {
                assert(group_satisfied(groups[i as int], self.keys_held@));
            } else {
                assert(!group_satisfied(groups[i as int], self.keys_held@));
                return false;
            }
            i = i + 1;
        }
        true
    }

    fn is_modifier(&self, code: u16) -> (r: bool)
        ensures
            r == is_modifier_code(self@.groups, code),
    {
        let ghost groups = self@.groups;
        let n: usize = self.modifier_groups.len();
        let mut i: usize = 0;
        while i < n
            invariant
                n == self.modifier_groups@.len(),
                groups == groups_view(self.modifier_groups@),
                i <= n,
                forall|a: int, b: int|
                    0 <= a < i && 0 <= b < groups[a].len() ==> groups[a][b] != code,
            decreases n - i,
        {
            let group = &self.modifier_groups[i];
            assert(groups[i as int] == group@);
            let m: usize = group.len();
            let mut j: usize = 0;
            while j < m
                invariant
                    groups == groups_view(self.modifier_groups@),
                    n == groups.len(),
                    i < n,
                    m == group@.len(),
                    groups[i as int] == group@,
                    j <= m,
                    forall|b: int| 0 <= b < j ==> group@[b] != code,
                decreases m - j,
            {
                if group[j] == code {
                    assert(groups[i as int][j as int] == code);
                    return true;
                }
                j = j + 1;
            }
            i = i + 1;
        }
        false
    }

    /// Feeds one input event (its type, code and value) to the tracker and
    /// returns the hotkey transition it causes.
    pub fn handle_event(&mut self, event_type: u16, code: u16, value: i32) -> (r: Option<
        HotkeyEvent,
    >)
        requires
            old(self).wf(),
        ensures
            final(self).wf(),
            (final(self)@, r) == step(old(self)@, event_type, code, value),
    {
        proof {
            lemma_step_keeps_hold_invariant(self@, event_type, code, value);
        }
        if event_type != EV_KEY {
            return None;
        }
        let pressed = value == 1;
        let released = value == 0;
        if pressed {
            self.keys_held.insert(code);
        } else if released {
            self.keys_held.remove(&code);
        }
        assert(self.keys_held@ =~= held_after(old(self)@.held, code, value));
        let all_mods_satisfied = self.all_mods_satisfied();
        let mut event: Option<HotkeyEvent> = None;
        if code == self.trigger {
            if pressed && !self.trigger_held {
                if all_mods_satisfied {
                    self.trigger_held = true;
                    event = Some(HotkeyEvent::Pressed);
                }
            } else if released && self.trigger_held {
                self.trigger_held = false;
                event = Some(HotkeyEvent::Released);
            }
        }
        if released && self.trigger_held && !all_mods_satisfied && self.is_modifier(code) {
            self.trigger_held = false;
            event = Some(HotkeyEvent::Released);
        }
        event
    }
}

/// A key event keeps the invariant: while the hotkey is reported held, every
/// modifier group has a key down.
pub proof fn lemma_step_keeps_hold_invariant(s: HotkeyState, event_type: u16, code: u16, value: i32)
    requires
        hold_invariant(s),
    ensures
        hold_invariant(step(s, event_type, code, value).0),
{
    let (t, ev) = step(s, event_type, code, value);
    if event_type == EV_KEY && t.trigger_held {
        let held = held_after(s.held, code, value);
        let sat = mods_satisfied(s.groups, held);
        assert(t.held == held && t.groups == s.groups);
        if ev is Some {
            // Only `Pressed` leaves the hotkey held, and it needs every group satisfied.
            assert(sat);
        } else if value == 0 && is_modifier_code(s.groups, code) {
            // A modifier went up without a release being reported: the groups
            // are still satisfied.
            assert(sat);
        } else {
            // No modifier key went up: every group keeps the key that satisfied it.
            assert forall|i: int| 0 <= i < s.groups.len() implies #[trigger] group_satisfied(
                s.groups[i],
                held,
            ) by {
                assert(group_satisfied(s.groups[i], s.held));
                let j: int = choose|j: int| 0 <= j < s.groups[i].len() && s.held.contains(s.groups[i][j]);
                if value == 0 && s.groups[i][j] == code {
                    assert(is_modifier_code(s.groups, code));
                }
                assert(held.contains(s.groups[i][j]));
            }
            assert(mods_satisfied(s.groups, held));
        }
        assert(mods_satisfied(t.groups, t.held));
        assert(hold_invariant(t));
    }
    assert(hold_invariant(t));
}

/// What a sequence of input events (type, code, value) does from a state:
/// the final state and the hotkey transitions reported, in order.
pub open spec fn run(s: HotkeyState, events: Seq<(u16, u16, i32)>) -> (
    HotkeyState,
    Seq<HotkeyEvent>,
)
    decreases events.len(),
{
    if events.len() == 0 {
        (s, seq![])
    } else {
        let (s1, out) = run(s, events.drop_last());
        let e = events.last();
        let (s2, ev) = step(s1, e.0, e.1, e.2);
        (
            s2,
            match ev {
                Some(x) => out.push(x),
                None => out,
            },
        )
    }
}

/// The transitions alternate, starting with `Pressed`.
pub open spec fn alternates(out: Seq<HotkeyEvent>) -> bool {
    forall|i: int|
        0 <= i < out.len() ==> #[trigger] out[i] == if i % 2 == 0 {
            HotkeyEvent::Pressed
        } else {
            HotkeyEvent::Released
        }
}

/// From a state where the hotkey is not held, any sequence of input events
/// reports `Pressed` and `Released` in strict alternation, starting with
/// `Pressed`, and the hotkey ends held exactly when the last report was
/// `Pressed`. The trigger, the groups and the invariant are kept throughout.
pub proof fn lemma_reports_alternate(s: HotkeyState, events: Seq<(u16, u16, i32)>)
    requires
        !s.trigger_held,
    ensures
        alternates(run(s, events).1),
        run(s, events).0.trigger_held == (run(s, events).1.len() % 2 == 1),
        run(s, events).0.trigger == s.trigger,
        run(s, events).0.groups == s.groups,
        hold_invariant(run(s, events).0),
    decreases events.len(),
{
    if events.len() > 0 {
        lemma_reports_alternate(s, events.drop_last());
        let (s1, out) = run(s, events.drop_last());
        let e = events.last();
        lemma_step_keeps_hold_invariant(s1, e.0, e.1, e.2);
        let (s2, ev) = step(s1, e.0, e.1, e.2);
        match ev {
            Some(x) => {
                assert forall|i: int| 0 <= i < out.push(x).len() implies #[trigger] out.push(x)[i]
                    == if i % 2 == 0 {
                    HotkeyEvent::Pressed
                } else {
                    HotkeyEvent::Released
                } by {
                    if i < out.len() {
                        assert(out.push(x)[i] == out[i]);
                    }
                }
            },
            None => {},
        }
    } else {
        assert(hold_invariant(s));
    }
}

/// What one event can report: `Pressed` only when the trigger key goes down
/// with every modifier group satisfied and the hotkey not yet held; `Released`
/// only when a key goes up while the hotkey is held; and the hotkey's held
/// state changes only together with a report.
pub proof fn lemma_step_reports(s: HotkeyState, event_type: u16, code: u16, value: i32)
    ensures
        ({
            let (t, ev) = step(s, event_type, code, value);
            &&& ev == Some(HotkeyEvent::Pressed) ==> {
                &&& event_type == EV_KEY && code == s.trigger && value == 1
                &&& !s.trigger_held && t.trigger_held
                &&& mods_satisfied(s.groups, t.held)
            }
            &&& ev == Some(HotkeyEvent::Released) ==> {
                &&& event_type == EV_KEY && value == 0
                &&& s.trigger_held && !t.trigger_held
            }
            &&& ev is None ==> t.trigger_held == s.trigger_held
            &&& t.trigger == s.trigger && t.groups == s.groups
        }),
{
}

/// A tracker for a resolved configuration reports `Pressed` only for the
/// configured combination: the event is the configured key going down, and
/// for every configured modifier name one of its keys is held.
pub proof fn lemma_pressed_is_configured_combination(
    config_key: Seq<char>,
    config_modifiers: Seq<Seq<char>>,
    s: HotkeyState,
    event_type: u16,
    code: u16,
    value: i32,
)
    requires
        key_code_of(lowercase(config_key)) == Some(s.trigger),
        s.groups.len() == config_modifiers.len(),
        forall|i: int|
            0 <= i < config_modifiers.len() ==> #[trigger] s.groups[i] == modifier_codes_of(
                lowercase(config_modifiers[i]),
            ),
    ensures
        step(s, event_type, code, value).1 == Some(HotkeyEvent::Pressed) ==> {
            &&& event_type == EV_KEY && value == 1
            &&& key_code_of(lowercase(config_key)) == Some(code)
            &&& forall|i: int|
                0 <= i < config_modifiers.len() ==> #[trigger] group_satisfied(
                    modifier_codes_of(lowercase(config_modifiers[i])),
                    step(s, event_type, code, value).0.held,
                )
        },
{
    let (t, ev) = step(s, event_type, code, value);
    if ev == Some(HotkeyEvent::Pressed) {
        assert forall|i: int| 0 <= i < config_modifiers.len() implies #[trigger] group_satisfied(
            modifier_codes_of(lowercase(config_modifiers[i])),
            t.held,
        ) by {
            assert(group_satisfied(s.groups[i], t.held));
        }
    }
}

/// An ASCII key name means the same key as its lowercase form: lowercasing
/// the name again changes nothing.
pub proof fn lemma_key_name_case_insensitive(name: Seq<char>)
    requires
        is_ascii_chars(name),
    ensures
        is_ascii_chars(ascii_lowercase(name)),
        key_code_of(ascii_lowercase(ascii_lowercase(name))) == key_code_of(ascii_lowercase(name)),
        modifier_codes_of(ascii_lowercase(ascii_lowercase(name))) == modifier_codes_of(
            ascii_lowercase(name),
        ),
{
    lemma_ascii_lowercase_idempotent(name);
}

/// Distinct key names stand for distinct keys.
pub proof fn lemma_key_codes_distinct(a: Seq<char>, b: Seq<char>)
    requires
        key_code_of(a) is Some,
        key_code_of(a) == key_code_of(b),
    ensures
        a == b,
{
}

/// A key enters the held set only by its own key-down and leaves it only by
/// its own key-up: every other key keeps its state, whatever is reported.
/// Events that are not key events leave the held set as it is.
pub proof fn lemma_held_keys_follow_their_own_events(
    s: HotkeyState,
    event_type: u16,
    code: u16,
    value: i32,
)
    ensures
        event_type == EV_KEY && value == 1 ==> step(s, event_type, code, value).0.held
            == s.held.insert(code),
        event_type == EV_KEY && value == 0 ==> step(s, event_type, code, value).0.held
            == s.held.remove(code),
        event_type != EV_KEY || (value != 0 && value != 1) ==> step(
            s,
            event_type,
            code,
            value,
        ).0.held == s.held,
        forall|k: u16|
            k != code ==> (#[trigger] step(s, event_type, code, value).0.held.contains(k)
                == s.held.contains(k)),
{
}

/// The trigger key going down while the hotkey is not held, with a key of
/// every modifier group down, always reports `Pressed`, and it does so again
/// after a release as long as the modifiers stay down.
pub proof fn lemma_trigger_down_with_modifiers_presses(s: HotkeyState)
    requires
        !s.trigger_held,
        mods_satisfied(s.groups, s.held.insert(s.trigger)),
    ensures
        step(s, EV_KEY, s.trigger, 1).1 == Some(HotkeyEvent::Pressed),
        step(s, EV_KEY, s.trigger, 1).0.trigger_held,
        ({
            let pressed = step(s, EV_KEY, s.trigger, 1).0;
            let released = step(pressed, EV_KEY, s.trigger, 0);
            &&& released.1 == Some(HotkeyEvent::Released)
            &&& !released.0.trigger_held
            &&& step(released.0, EV_KEY, s.trigger, 1).1 == Some(HotkeyEvent::Pressed)
        }),
{
    let pressed = step(s, EV_KEY, s.trigger, 1).0;
    let released = step(pressed, EV_KEY, s.trigger, 0).0;
    assert(released.held.insert(s.trigger) =~= s.held.insert(s.trigger));
}

} // verus!
