//! The system tray: which state it shows, its icon and tooltip, and the
//! hotkey label it advertises.

use vstd::prelude::*;

use crate::text::{ascii_uppercase, str_eq, to_uppercase, uppercase};
use vstd::utf8::is_ascii_chars;

verus! {

/// Tray states.
pub const STATE_IDLE: u8 = 0;

pub const STATE_RECORDING: u8 = 1;

pub const STATE_PROCESSING: u8 = 2;

/// What the tray shows: the dictation state and the hotkey label, which is
/// set at most once.
#[derive(Debug)]
pub struct WhispTray {
    state: u8,
    hotkey_label: Option<String>,
}

/// The display name of a configured modifier.
pub open spec fn modifier_display(m: Seq<char>) -> Seq<char> {
    if m == "super"@ || m == "meta"@ {
        "Super"@
    } else if m == "ctrl"@ || m == "control"@ {
        "Ctrl"@
    } else if m == "alt"@ {
        "Alt"@
    } else if m == "shift"@ {
        "Shift"@
    } else {
        m
    }
}

/// The parts joined with a separator between consecutive parts.
pub open spec fn join_with(parts: Seq<Seq<char>>, sep: Seq<char>) -> Seq<char>
    decreases parts.len(),
{
    if parts.len() == 0 {
        seq![]
    } else if parts.len() == 1 {
        parts[0]
    } else {
        join_with(parts.drop_last(), sep) + sep + parts.last()
    }
}

/// The label of a hotkey: the display names of the modifiers and the
/// uppercase key, joined by `+`.
pub open spec fn hotkey_label_spec(modifiers: Seq<Seq<char>>, key: Seq<char>) -> Seq<char> {
    if modifiers.len() == 0 {
        uppercase(key)
    } else {
        join_with(modifiers.map_values(|m: Seq<char>| modifier_display(m)), "+"@) + "+"@
            + uppercase(key)
    }
}

/// The label shown for the hotkey when none has been set.
pub open spec fn default_hotkey_label() -> Seq<char> {
    "Ctrl+Space"@
}

/// The icon name of a tray state.
pub open spec fn icon_name_spec(state: u8) -> Seq<char> {
    if state == STATE_RECORDING {
        "microphone-sensitivity-high"@
    } else if state == STATE_PROCESSING {
        "process-working"@
    } else {
        "microphone-sensitivity-muted"@
    }
}

/// The tooltip text of a tray state.
pub open spec fn tool_tip_spec(state: u8, label: Option<Seq<char>>) -> Seq<char> {
    if state == STATE_RECORDING {
        "Recording..."@
    } else if state == STATE_PROCESSING {
        "Processing..."@
    } else {
        "Idle - Hold "@ + match label {
            Some(l) => l,
            None => default_hotkey_label(),
        } + " to dictate"@
    }
}

/// The view of an optional string.
pub open spec fn opt_view(o: Option<String>) -> Option<Seq<char>> {
    match o {
        Some(s) => Some(s@),
        None => None,
    }
}

/// The display name of a configured modifier name.
pub fn modifier_display_name(m: &str) -> (r: String)
    ensures
        r@ == modifier_display(m@),
{
    if str_eq(m, "super") || str_eq(m, "meta") {
        String::from_str("Super")
    } else if str_eq(m, "ctrl") || str_eq(m, "control") {
        String::from_str("Ctrl")
    } else if str_eq(m, "alt") {
        String::from_str("Alt")
    } else if str_eq(m, "shift") {
        String::from_str("Shift")
    } else {
        m.to_owned()
    }
}

/// The label of a hotkey, e.g. `Ctrl+SPACE`.
pub fn hotkey_label(modifiers: &[String], key: &str) -> (r: String)
    ensures
        r@ == hotkey_label_spec(modifiers@.map_values(|m: String| m@), key@),
        is_ascii_chars(key@) ==> uppercase(key@) == ascii_uppercase(key@),
{
    let ghost mods = modifiers@.map_values(|m: String| m@);
    let ghost names = mods.map_values(|m: Seq<char>| modifier_display(m));
    let upper = to_uppercase(key);
    if modifiers.len() == 0 {
        return upper;
    }
    let mut r = String::new();
    let n: usize = modifiers.len();
    let mut i: usize = 0;
    while i < n
        invariant
            n == modifiers@.len(),
            i <= n,
            mods == modifiers@.map_values(|m: String| m@),
            names == mods.map_values(|m: Seq<char>| modifier_display(m)),
            r@ == join_with(names.take(i as int), "+"@),
        decreases n - i,
    {
        if i > 0 {
            r.append("+");
        }
        let name = modifier_display_name(modifiers[i].as_str());
        r.append(name.as_str());
        assert(names.take(i + 1).drop_last() =~= names.take(i as int));
        i = i + 1;
    }
    assert(names.take(n as int) =~= names);
    r.append("+");
    r.append(upper.as_str());
    r
}

impl WhispTray {
    /// The current tray state.
    pub closed spec fn state_spec(&self) -> u8 {
        self.state
    }

    /// The hotkey label, once set.
    pub closed spec fn label_spec(&self) -> Option<Seq<char>> {
        opt_view(self.hotkey_label)
    }

    /// A tray in the idle state with no hotkey label.
    pub fn new() -> (r: Self)
        ensures
            r.state_spec() == STATE_IDLE,
            r.label_spec() is None,
    {
        WhispTray { state: STATE_IDLE, hotkey_label: None }
    }

    /// The current tray state.
    pub fn state(&self) -> (r: u8)
        ensures
            r == self.state_spec(),
    {
        self.state
    }

    /// The identifier of the tray item.
    pub fn id(&self) -> (r: String)
        ensures
            r@ == "whisp-rs"@,
    {
        String::from_str("whisp-rs")
    }

    /// The title of the tray item.
    pub fn title(&self) -> (r: String)
        ensures
            r@ == "whisp-rs"@,
    {
        String::from_str("whisp-rs")
    }

    /// The icon theme path: none, the theme's own icons are used.
    pub fn icon_theme_path(&self) -> (r: String)
        ensures
            r@ == Seq::<char>::empty(),
    {
        String::new()
    }

    /// The icon for the current state.
    pub fn icon_name(&self) -> (r: String)
        ensures
            r@ == icon_name_spec(self.state_spec()),
    {
        if self.state == STATE_RECORDING {
            String::from_str("microphone-sensitivity-high")
        } else if self.state == STATE_PROCESSING {
            String::from_str("process-working")
        } else {
            String::from_str("microphone-sensitivity-muted")
        }
    }

    /// The tooltip text for the current state.
    pub fn tool_tip(&self) -> (r: String)
        ensures
            r@ == tool_tip_spec(self.state_spec(), self.label_spec()),
    {
        if self.state == STATE_RECORDING {
            String::from_str("Recording...")
        } else if self.state == STATE_PROCESSING {
            String::from_str("Processing...")
        } else {
            let mut r = String::from_str("Idle - Hold ");
            match &self.hotkey_label {
                Some(l) => r.append(l.as_str()),
                None => r.append("Ctrl+Space"),
            }
            r.append(" to dictate");
            r
        }
    }
}

/// Sets the state that the tray shows.
pub fn set_state(tray: &mut WhispTray, state: u8)
    ensures
        final(tray).state_spec() == state,
        final(tray).label_spec() == old(tray).label_spec(),
{
    tray.state = state;
}

/// Sets the hotkey label shown in the tray tooltip. Only the first call sets
/// it: once a label is set, later calls leave it as it is.
pub fn set_hotkey_label(tray: &mut WhispTray, modifiers: &[String], key: &str)
    ensures
        final(tray).state_spec() == old(tray).state_spec(),
        final(tray).label_spec() == match old(tray).label_spec() {
            Some(l) => Some(l),
            None => Some(hotkey_label_spec(modifiers@.map_values(|m: String| m@), key@)),
        },
        old(tray).label_spec() is None && is_ascii_chars(key@) ==> uppercase(key@)
            == ascii_uppercase(key@),
{
    if tray.hotkey_label.is_none() {
        let label = hotkey_label(modifiers, key);
        tray.hotkey_label = Some(label);
    }
}

} // verus!
