use whisp_rs::applet::{STATE_IDLE, STATE_PROCESSING, STATE_RECORDING};
use whisp_rs::dictation::{missing_api_key_message, AudioAction, DictationCycle, ReleaseAction};

#[test]
fn full_cycle() {
    let mut c = DictationCycle::new();
    assert_eq!(c.tray(), STATE_IDLE);
    c.hotkey_pressed();
    assert_eq!(c.tray(), STATE_RECORDING);
    c.capture_started(true);
    assert_eq!(c.tray(), STATE_RECORDING);
    assert_eq!(c.hotkey_released(), ReleaseAction::DrainAudio);
    assert_eq!(c.tray(), STATE_PROCESSING);
    assert_eq!(c.audio_drained(32000), AudioAction::Transcribe);
    assert!(c.transcribed("hello"));
    assert_eq!(c.dictations(), 1);
    c.release_handled();
    assert_eq!(c.tray(), STATE_IDLE);
}

#[test]
fn failed_capture() {
    let mut c = DictationCycle::new();
    c.hotkey_pressed();
    c.capture_started(false);
    assert_eq!(c.tray(), STATE_IDLE);
    assert_eq!(c.hotkey_released(), ReleaseAction::NothingRecorded);
    c.release_handled();
    assert_eq!(c.tray(), STATE_IDLE);
    assert_eq!(c.dictations(), 0);
}

#[test]
fn empty_audio_and_empty_transcript() {
    let c = DictationCycle::new();
    assert_eq!(c.audio_drained(0), AudioAction::SkipEmpty);
    let mut c = DictationCycle::new();
    assert!(!c.transcribed(""));
    assert_eq!(c.dictations(), 0);
    assert_eq!(missing_api_key_message(), "No Deepgram API key configured");
}

#[test]
fn second_release_has_nothing() {
    let mut c = DictationCycle::new();
    c.hotkey_pressed();
    c.capture_started(true);
    assert_eq!(c.hotkey_released(), ReleaseAction::DrainAudio);
    assert_eq!(c.hotkey_released(), ReleaseAction::NothingRecorded);
}
