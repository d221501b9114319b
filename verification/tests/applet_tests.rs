use whisp_rs::applet::{
    hotkey_label, modifier_display_name, set_hotkey_label, set_state, WhispTray,
    STATE_IDLE, STATE_PROCESSING, STATE_RECORDING,
};

fn strings(v: &[&str]) -> Vec<String> {
    v.iter().map(|s| s.to_string()).collect()
}

#[test]
fn label_of_default_hotkey() {
    assert_eq!(hotkey_label(&strings(&["ctrl"]), "space"), "Ctrl+SPACE");
}

#[test]
fn label_without_modifiers() {
    assert_eq!(hotkey_label(&[], "space"), "SPACE");
}

#[test]
fn label_with_several_modifiers() {
    assert_eq!(hotkey_label(&strings(&["super", "alt", "shift"]), "x"), "Super+Alt+Shift+X");
    assert_eq!(hotkey_label(&strings(&["meta", "control"]), "f5"), "Super+Ctrl+F5");
}

#[test]
fn unknown_modifier_shown_as_is() {
    assert_eq!(modifier_display_name("hyper"), "hyper");
    assert_eq!(modifier_display_name("Ctrl"), "Ctrl");
    assert_eq!(hotkey_label(&strings(&["CTRL"]), "a"), "CTRL+A");
}

#[test]
fn tray_starts_idle() {
    let t = WhispTray::new();
    assert_eq!(t.state(), STATE_IDLE);
    assert_eq!(t.id(), "whisp-rs");
    assert_eq!(t.title(), "whisp-rs");
    assert_eq!(t.icon_theme_path(), "");
    assert_eq!(t.icon_name(), "microphone-sensitivity-muted");
    assert_eq!(t.tool_tip(), "Idle - Hold Ctrl+Space to dictate");
}

#[test]
fn tray_states() {
    let mut t = WhispTray::new();
    set_state(&mut t, STATE_RECORDING);
    assert_eq!(t.icon_name(), "microphone-sensitivity-high");
    assert_eq!(t.tool_tip(), "Recording...");
    set_state(&mut t, STATE_PROCESSING);
    assert_eq!(t.icon_name(), "process-working");
    assert_eq!(t.tool_tip(), "Processing...");
    set_state(&mut t, 7);
    assert_eq!(t.icon_name(), "microphone-sensitivity-muted");
    set_state(&mut t, STATE_IDLE);
    assert_eq!(t.state(), STATE_IDLE);
}

#[test]
fn label_is_set_once() {
    let mut t = WhispTray::new();
    set_hotkey_label(&mut t, &strings(&["super"]), "space");
    assert_eq!(t.tool_tip(), "Idle - Hold Super+SPACE to dictate");
    set_hotkey_label(&mut t, &strings(&["alt"]), "z");
    assert_eq!(t.tool_tip(), "Idle - Hold Super+SPACE to dictate");
    set_state(&mut t, STATE_RECORDING);
    set_state(&mut t, STATE_IDLE);
    assert_eq!(t.tool_tip(), "Idle - Hold Super+SPACE to dictate");
}
