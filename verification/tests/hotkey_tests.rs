use evdev::KeyCode;
use whisp_rs::config::HotkeyConfig;
use whisp_rs::hotkey::{
    key_from_lowercase_name, key_from_name, modifier_keycodes, resolve_hotkey, HotkeyError,
    HotkeyEvent, HotkeySpec, HotkeyTracker, EV_KEY, KEY_A, KEY_F1, KEY_F12, KEY_LEFTALT,
    KEY_LEFTCTRL, KEY_LEFTMETA, KEY_LEFTSHIFT, KEY_RIGHTALT, KEY_RIGHTCTRL, KEY_RIGHTMETA,
    KEY_RIGHTSHIFT, KEY_SPACE, KEY_Z,
};

fn hotkey(mods: &[&str], key: &str) -> HotkeyConfig {
    HotkeyConfig {
        modifiers: mods.iter().map(|m| m.to_string()).collect(),
        key: key.to_string(),
    }
}

fn ctrl_space() -> HotkeyTracker {
    HotkeyTracker::new(resolve_hotkey(&hotkey(&["ctrl"], "space")).unwrap())
}

const DOWN: i32 = 1;
const UP: i32 = 0;
const REPEAT: i32 = 2;

#[test]
fn key_codes_match_evdev() {
    assert_eq!(KEY_SPACE, KeyCode::KEY_SPACE.code());
    assert_eq!(KEY_A, KeyCode::KEY_A.code());
    assert_eq!(KEY_Z, KeyCode::KEY_Z.code());
    assert_eq!(KEY_F1, KeyCode::KEY_F1.code());
    assert_eq!(KEY_F12, KeyCode::KEY_F12.code());
    assert_eq!(KEY_LEFTCTRL, KeyCode::KEY_LEFTCTRL.code());
    assert_eq!(KEY_RIGHTCTRL, KeyCode::KEY_RIGHTCTRL.code());
    assert_eq!(KEY_LEFTMETA, KeyCode::KEY_LEFTMETA.code());
    assert_eq!(KEY_RIGHTMETA, KeyCode::KEY_RIGHTMETA.code());
    assert_eq!(KEY_LEFTALT, KeyCode::KEY_LEFTALT.code());
    assert_eq!(KEY_RIGHTALT, KeyCode::KEY_RIGHTALT.code());
    assert_eq!(KEY_LEFTSHIFT, KeyCode::KEY_LEFTSHIFT.code());
    assert_eq!(KEY_RIGHTSHIFT, KeyCode::KEY_RIGHTSHIFT.code());
    assert_eq!(EV_KEY, evdev::EventType::KEY.0);
}

#[test]
fn every_letter_and_function_key_matches_evdev() {
    let letters = [
        ("a", KeyCode::KEY_A), ("b", KeyCode::KEY_B), ("c", KeyCode::KEY_C), ("d", KeyCode::KEY_D),
        ("e", KeyCode::KEY_E), ("f", KeyCode::KEY_F), ("g", KeyCode::KEY_G), ("h", KeyCode::KEY_H),
        ("i", KeyCode::KEY_I), ("j", KeyCode::KEY_J), ("k", KeyCode::KEY_K), ("l", KeyCode::KEY_L),
        ("m", KeyCode::KEY_M), ("n", KeyCode::KEY_N), ("o", KeyCode::KEY_O), ("p", KeyCode::KEY_P),
        ("q", KeyCode::KEY_Q), ("r", KeyCode::KEY_R), ("s", KeyCode::KEY_S), ("t", KeyCode::KEY_T),
        ("u", KeyCode::KEY_U), ("v", KeyCode::KEY_V), ("w", KeyCode::KEY_W), ("x", KeyCode::KEY_X),
        ("y", KeyCode::KEY_Y), ("z", KeyCode::KEY_Z), ("f1", KeyCode::KEY_F1),
        ("f2", KeyCode::KEY_F2), ("f3", KeyCode::KEY_F3), ("f4", KeyCode::KEY_F4),
        ("f5", KeyCode::KEY_F5), ("f6", KeyCode::KEY_F6), ("f7", KeyCode::KEY_F7),
        ("f8", KeyCode::KEY_F8), ("f9", KeyCode::KEY_F9), ("f10", KeyCode::KEY_F10),
        ("f11", KeyCode::KEY_F11), ("f12", KeyCode::KEY_F12), ("space", KeyCode::KEY_SPACE),
    ];
    for (name, code) in letters {
        assert_eq!(key_from_lowercase_name(name), Some(code.code()), "{name}");
    }
}

#[test]
fn key_names_ignore_case() {
    assert_eq!(key_from_name("space"), Some(KEY_SPACE));
    assert_eq!(key_from_name("SPACE"), Some(KEY_SPACE));
    assert_eq!(key_from_name("Space"), Some(KEY_SPACE));
    assert_eq!(key_from_name("F12"), Some(KEY_F12));
    assert_eq!(key_from_name("a"), Some(KEY_A));
}

#[test]
fn unknown_key_names() {
    assert_eq!(key_from_name("enter"), None);
    assert_eq!(key_from_name(""), None);
    assert_eq!(key_from_name("f13"), None);
    assert_eq!(key_from_lowercase_name("SPACE"), None);
}

#[test]
fn modifier_names() {
    assert_eq!(modifier_keycodes("super"), vec![KEY_LEFTMETA, KEY_RIGHTMETA]);
    assert_eq!(modifier_keycodes("meta"), vec![KEY_LEFTMETA, KEY_RIGHTMETA]);
    assert_eq!(modifier_keycodes("super_l"), vec![KEY_LEFTMETA, KEY_RIGHTMETA]);
    assert_eq!(modifier_keycodes("Ctrl"), vec![KEY_LEFTCTRL, KEY_RIGHTCTRL]);
    assert_eq!(modifier_keycodes("CONTROL"), vec![KEY_LEFTCTRL, KEY_RIGHTCTRL]);
    assert_eq!(modifier_keycodes("alt"), vec![KEY_LEFTALT, KEY_RIGHTALT]);
    assert_eq!(modifier_keycodes("shift"), vec![KEY_LEFTSHIFT, KEY_RIGHTSHIFT]);
    assert!(modifier_keycodes("hyper").is_empty());
}

#[test]
fn resolve_default_hotkey() {
    let h = resolve_hotkey(&hotkey(&["ctrl"], "space")).unwrap();
    assert_eq!(h.trigger, KEY_SPACE);
    assert_eq!(h.modifier_groups, vec![vec![KEY_LEFTCTRL, KEY_RIGHTCTRL]]);
}

#[test]
fn resolve_two_modifiers() {
    let h = resolve_hotkey(&hotkey(&["ctrl", "shift"], "d")).unwrap();
    assert_eq!(h.trigger, 32);
    assert_eq!(
        h.modifier_groups,
        vec![vec![KEY_LEFTCTRL, KEY_RIGHTCTRL], vec![KEY_LEFTSHIFT, KEY_RIGHTSHIFT]]
    );
}

#[test]
fn resolve_unknown_key() {
    let e = resolve_hotkey(&hotkey(&["bogus"], "enter")).unwrap_err();
    assert_eq!(e, HotkeyError::UnknownKey("enter".to_string()));
    assert_eq!(e.message(), "Unknown key: enter");
}

#[test]
fn resolve_unknown_modifier_reports_first() {
    let e = resolve_hotkey(&hotkey(&["ctrl", "hyper", "bogus"], "space")).unwrap_err();
    assert_eq!(e, HotkeyError::UnknownModifier("hyper".to_string()));
    assert_eq!(e.message(), "Unknown modifier: hyper");
}

#[test]
fn resolve_without_modifiers() {
    let e = resolve_hotkey(&hotkey(&[], "space")).unwrap_err();
    assert_eq!(e, HotkeyError::NoModifiers);
    assert_eq!(e.message(), "No valid modifiers configured");
}

#[test]
fn press_and_release() {
    let mut t = ctrl_space();
    assert_eq!(t.handle_event(EV_KEY, KEY_LEFTCTRL, DOWN), None);
    assert_eq!(t.handle_event(EV_KEY, KEY_SPACE, DOWN), Some(HotkeyEvent::Pressed));
    assert!(t.is_held());
    assert_eq!(t.handle_event(EV_KEY, KEY_SPACE, REPEAT), None);
    assert_eq!(t.handle_event(EV_KEY, KEY_SPACE, UP), Some(HotkeyEvent::Released));
    assert!(!t.is_held());
    assert_eq!(t.handle_event(EV_KEY, KEY_LEFTCTRL, UP), None);
}

#[test]
fn right_modifier_counts() {
    let mut t = ctrl_space();
    t.handle_event(EV_KEY, KEY_RIGHTCTRL, DOWN);
    assert_eq!(t.handle_event(EV_KEY, KEY_SPACE, DOWN), Some(HotkeyEvent::Pressed));
}

#[test]
fn trigger_without_modifier_does_nothing() {
    let mut t = ctrl_space();
    assert_eq!(t.handle_event(EV_KEY, KEY_SPACE, DOWN), None);
    assert_eq!(t.handle_event(EV_KEY, KEY_SPACE, UP), None);
    assert!(!t.is_held());
}

#[test]
fn modifier_dropped_releases() {
    let mut t = ctrl_space();
    t.handle_event(EV_KEY, KEY_LEFTCTRL, DOWN);
    assert_eq!(t.handle_event(EV_KEY, KEY_SPACE, DOWN), Some(HotkeyEvent::Pressed));
    assert_eq!(t.handle_event(EV_KEY, KEY_LEFTCTRL, UP), Some(HotkeyEvent::Released));
    assert_eq!(t.handle_event(EV_KEY, KEY_SPACE, UP), None);
}

#[test]
fn other_modifier_still_satisfies() {
    let mut t = ctrl_space();
    t.handle_event(EV_KEY, KEY_LEFTCTRL, DOWN);
    t.handle_event(EV_KEY, KEY_RIGHTCTRL, DOWN);
    assert_eq!(t.handle_event(EV_KEY, KEY_SPACE, DOWN), Some(HotkeyEvent::Pressed));
    assert_eq!(t.handle_event(EV_KEY, KEY_LEFTCTRL, UP), None);
    assert!(t.is_held());
    assert_eq!(t.handle_event(EV_KEY, KEY_SPACE, UP), Some(HotkeyEvent::Released));
}

#[test]
fn other_keys_and_event_types_are_ignored() {
    let mut t = ctrl_space();
    t.handle_event(EV_KEY, KEY_LEFTCTRL, DOWN);
    assert_eq!(t.handle_event(0, KEY_SPACE, DOWN), None);
    assert_eq!(t.handle_event(EV_KEY, KEY_A, DOWN), None);
    assert_eq!(t.handle_event(EV_KEY, KEY_SPACE, DOWN), Some(HotkeyEvent::Pressed));
    assert_eq!(t.handle_event(EV_KEY, KEY_A, UP), None);
    assert_eq!(t.handle_event(4, KEY_SPACE, UP), None);
    assert!(t.is_held());
}

#[test]
fn second_press_while_held_is_ignored() {
    let mut t = ctrl_space();
    t.handle_event(EV_KEY, KEY_LEFTCTRL, DOWN);
    assert_eq!(t.handle_event(EV_KEY, KEY_SPACE, DOWN), Some(HotkeyEvent::Pressed));
    assert_eq!(t.handle_event(EV_KEY, KEY_SPACE, DOWN), None);
}

#[test]
fn reports_alternate_over_a_long_sequence() {
    let spec = HotkeySpec { trigger: KEY_SPACE, modifier_groups: vec![vec![KEY_LEFTCTRL]] };
    let mut t = HotkeyTracker::new(spec);
    let events = [
        (KEY_SPACE, DOWN), (KEY_LEFTCTRL, DOWN), (KEY_SPACE, DOWN), (KEY_SPACE, DOWN),
        (KEY_LEFTCTRL, UP), (KEY_SPACE, UP), (KEY_LEFTCTRL, DOWN), (KEY_SPACE, UP),
        (KEY_SPACE, DOWN), (KEY_SPACE, UP), (KEY_SPACE, UP), (KEY_LEFTCTRL, UP),
    ];
    let mut out = Vec::new();
    for (code, value) in events {
        if let Some(e) = t.handle_event(EV_KEY, code, value) {
            out.push(e);
        }
    }
    assert_eq!(
        out,
        vec![
            HotkeyEvent::Pressed,
            HotkeyEvent::Released,
            HotkeyEvent::Pressed,
            HotkeyEvent::Released
        ]
    );
}

#[test]
fn ascii_names_lowercased_twice_agree() {
    for name in ["Space", "SPACE", "f7", "F7", "Q", "hyper"] {
        assert_eq!(key_from_name(name), key_from_name(&name.to_lowercase()));
    }
}
