use whisp_rs::inject::{
    failure_message, inject_command, inject_next, inject_text, step_failure_reason, step_run,
    truncate, InjectStep,
    StepRun,
};

fn run(text: &str, outcomes: &[bool]) -> (InjectStep, Vec<Vec<String>>) {
    let mut step = inject_text(text);
    let mut commands = Vec::new();
    for &ok in outcomes {
        if let Some(c) = inject_command(step, text) {
            commands.push(c);
        }
        step = inject_next(step, ok);
    }
    (step, commands)
}

fn cmd(parts: &[&str]) -> Vec<String> {
    parts.iter().map(|s| s.to_string()).collect()
}

#[test]
fn empty_text_needs_nothing() {
    assert_eq!(inject_text(""), InjectStep::Finished);
    assert_eq!(inject_command(InjectStep::Finished, ""), None);
}

#[test]
fn wtype_first() {
    let (end, cmds) = run("hello", &[true, true]);
    assert_eq!(end, InjectStep::Finished);
    assert_eq!(cmds, vec![cmd(&["which", "wtype"]), cmd(&["wtype", "-d", "10", "hello"])]);
}

#[test]
fn clipboard_when_wtype_fails() {
    // wtype present but fails; wl-copy present; copy works; ydotool present and
    // daemon running; paste runs.
    let (end, cmds) = run("hi", &[true, false, true, true, true, true, true, true]);
    assert_eq!(end, InjectStep::Finished);
    assert_eq!(
        cmds,
        vec![
            cmd(&["which", "wtype"]),
            cmd(&["wtype", "-d", "10", "hi"]),
            cmd(&["which", "wl-copy"]),
            cmd(&["which", "wl-copy"]),
            cmd(&["wl-copy"]),
            cmd(&["which", "ydotool"]),
            cmd(&["pgrep", "ydotoold"]),
            cmd(&["ydotool", "key", "29:1", "47:1", "47:0", "29:0"]),
        ]
    );
}

#[test]
fn clipboard_paste_with_wtype() {
    // no wtype to type, wl-copy works, no ydotool, wtype found for the paste.
    let (end, cmds) = run("hi", &[false, true, true, true, false, true, true]);
    assert_eq!(end, InjectStep::Finished);
    assert_eq!(cmds[5], cmd(&["which", "wtype"]));
    assert_eq!(cmds[6], cmd(&["wtype", "-M", "ctrl", "v"]));
}

#[test]
fn ydotool_last() {
    let (end, cmds) = run("x", &[false, false, true, true, true]);
    assert_eq!(end, InjectStep::Finished);
    assert_eq!(
        cmds,
        vec![
            cmd(&["which", "wtype"]),
            cmd(&["which", "wl-copy"]),
            cmd(&["which", "ydotool"]),
            cmd(&["pgrep", "ydotoold"]),
            cmd(&["ydotool", "type", "--key-delay", "10", "x"]),
        ]
    );
}

#[test]
fn everything_missing_fails() {
    let (end, _) = run("x", &[false, false, false]);
    assert_eq!(end, InjectStep::Failed);
    assert_eq!(failure_message(), "All injection methods failed. Install wtype or wl-clipboard.");
    let (end, _) = run("x", &[false, false, true, false]);
    assert_eq!(end, InjectStep::Failed);
}

#[test]
fn ends_stay() {
    assert_eq!(inject_next(InjectStep::Finished, false), InjectStep::Finished);
    assert_eq!(inject_next(InjectStep::Failed, true), InjectStep::Failed);
}

#[test]
fn every_path_ends_within_thirteen_steps() {
    for bits in 0u32..(1 << 13) {
        let mut step = inject_text("text");
        for i in 0..13 {
            step = inject_next(step, bits & (1 << i) != 0);
        }
        assert!(step == InjectStep::Finished || step == InjectStep::Failed);
    }
}

#[test]
fn truncate_short_text() {
    assert_eq!(truncate("hello", 80), "hello");
    assert_eq!(truncate("hello", 5), "hello");
    assert_eq!(truncate("", 0), "");
}

#[test]
fn truncate_long_text() {
    assert_eq!(truncate("hello world", 5), "hello...");
    let long = "a".repeat(100);
    assert_eq!(truncate(&long, 80), format!("{}...", "a".repeat(80)));
}

#[test]
fn truncate_counts_bytes() {
    // "é" is two bytes: the cut after three bytes falls after "hé".
    assert_eq!(truncate("héllo", 3), "hé...");
}

#[test]
fn how_steps_run() {
    assert_eq!(step_run(InjectStep::CheckWtype), Some(StepRun::Probe));
    assert_eq!(step_run(InjectStep::CheckYdotoold), Some(StepRun::Probe));
    assert_eq!(step_run(InjectStep::TypeWithWtype), Some(StepRun::TypeText));
    assert_eq!(step_run(InjectStep::TypeWithYdotool), Some(StepRun::TypeText));
    assert_eq!(step_run(InjectStep::CopyToClipboard), Some(StepRun::CopyText));
    assert_eq!(step_run(InjectStep::PasteWithWtype), Some(StepRun::PressKeys));
    assert_eq!(step_run(InjectStep::Finished), None);
}

#[test]
fn truncate_never_splits_a_character() {
    // "é" spans bytes 1..3: a cut at 2 falls back to 1.
    assert_eq!(truncate("héllo", 2), "h...");
    // Three-byte characters: a cut at 80 inside the 27th falls back to 78.
    let zh = "中".repeat(40);
    assert_eq!(truncate(&zh, 80), format!("{}...", "中".repeat(26)));
    assert_eq!(truncate("中文", 1), "...");
}

#[test]
fn clipboard_failure_reasons() {
    assert_eq!(
        step_failure_reason(InjectStep::RecheckWlCopy, false).as_deref(),
        Some("clipboard paste failed: wl-copy not found")
    );
    assert_eq!(
        step_failure_reason(InjectStep::PasteCheckWtype, false).as_deref(),
        Some("clipboard paste failed: No key simulator available for paste")
    );
    assert_eq!(
        step_failure_reason(InjectStep::CheckYdotoold, false).as_deref(),
        Some("ydotool found but ydotoold daemon not running")
    );
    assert_eq!(step_failure_reason(InjectStep::RecheckWlCopy, true), None);
    assert_eq!(step_failure_reason(InjectStep::CheckWtype, false), None);
}
