//! The dictation cycle of the daemon: hold the hotkey to record, release it
//! to transcribe and type the text. The daemon performs the capture, the
//! request and the injection; this module decides what comes next and what
//! the tray shows.

use vstd::prelude::*;

use crate::applet::{STATE_IDLE, STATE_PROCESSING, STATE_RECORDING};

verus! {

/// The state of the dictation cycle.
#[derive(Debug, Clone, Copy)]
pub struct DictationCycle {
    recording: bool,
    dictations: u64,
    tray: u8,
}

/// What to do once the hotkey is released.
#[derive(Debug, Clone, Copy, PartialEq, Eq, Structural)]
pub enum ReleaseAction {
    /// Stop the capture and read the recorded audio.
    DrainAudio,
    /// No capture is running: nothing to transcribe.
    NothingRecorded,
}

/// What to do with the recorded audio.
#[derive(Debug, Clone, Copy, PartialEq, Eq, Structural)]
pub enum AudioAction {
    /// Send it for transcription.
    Transcribe,
    /// Nothing was captured; go back to idle.
    SkipEmpty,
}

impl DictationCycle {
    /// Whether a capture is running.
    pub closed spec fn recording_spec(&self) -> bool {
        self.recording
    }

    /// How many transcripts have been typed.
    pub closed spec fn dictations_spec(&self) -> u64 {
        self.dictations
    }

    /// The state the tray shows.
    pub closed spec fn tray_spec(&self) -> u8 {
        self.tray
    }

    /// The cycle at start: idle, nothing recorded, nothing typed.
    pub fn new() -> (r: Self)
        ensures
            !r.recording_spec(),
            r.dictations_spec() == 0,
            r.tray_spec() == STATE_IDLE,
    {
        DictationCycle { recording: false, dictations: 0, tray: STATE_IDLE }
    }

    pub fn dictations(&self) -> (r: u64)
        ensures
            r == self.dictations_spec(),
    {
        self.dictations
    }

    pub fn tray(&self) -> (r: u8)
        ensures
            r == self.tray_spec(),
    {
        self.tray
    }

    /// The hotkey went down: the tray shows recording and a capture starts.
    pub fn hotkey_pressed(&mut self)
        ensures
            final(self).tray_spec() == STATE_RECORDING,
            final(self).recording_spec() == old(self).recording_spec(),
            final(self).dictations_spec() == old(self).dictations_spec(),
    {
        self.tray = STATE_RECORDING;
    }

    /// The capture started, or failed to start; a failed capture sends the
    /// tray back to idle.
    pub fn capture_started(&mut self, started: bool)
        ensures
            final(self).recording_spec() == started,
            final(self).tray_spec() == if started {
                old(self).tray_spec()
            } else {
                STATE_IDLE
            },
            final(self).dictations_spec() == old(self).dictations_spec(),
    {
        self.recording = started;
        if !started {
            self.tray = STATE_IDLE;
        }
    }

    /// The hotkey went up: the tray shows processing, and the running
    /// capture, if any, is stopped and read.
    pub fn hotkey_released(&mut self) -> (r: ReleaseAction)
        ensures
            r == (if old(self).recording_spec() {
                ReleaseAction::DrainAudio
            } else {
                ReleaseAction::NothingRecorded
            }),
            !final(self).recording_spec(),
            final(self).tray_spec() == STATE_PROCESSING,
            final(self).dictations_spec() == old(self).dictations_spec(),
    {
        let r = if self.recording {
            ReleaseAction::DrainAudio
        } else {
            ReleaseAction::NothingRecorded
        };
        self.recording = false;
        self.tray = STATE_PROCESSING;
        r
    }

    /// The recorded audio is transcribed unless it is empty.
    pub fn audio_drained(&self, pcm_len: usize) -> (r: AudioAction)
        ensures
            r == (if pcm_len > 0 {
                AudioAction::Transcribe
            } else {
                AudioAction::SkipEmpty
            }),
    {
        if pcm_len > 0 {
            AudioAction::Transcribe
        } else {
            AudioAction::SkipEmpty
        }
    }

    /// A transcript came back: a non-empty one is typed and counted.
    /// Returns whether to type it.
    pub fn transcribed(&mut self, transcript: &str) -> (r: bool)
        ensures
            r == (transcript@.len() > 0),
            final(self).dictations_spec() == if r {
                old(self).dictations_spec().wrapping_add(1)
            } else {
                old(self).dictations_spec()
            },
            final(self).recording_spec() == old(self).recording_spec(),
            final(self).tray_spec() == old(self).tray_spec(),
    {
        if transcript.is_empty() {
            false
        } else {
            self.dictations = self.dictations.wrapping_add(1);
            true
        }
    }

    /// The release has been handled: the tray goes back to idle.
    pub fn release_handled(&mut self)
        ensures
            final(self).tray_spec() == STATE_IDLE,
            final(self).recording_spec() == old(self).recording_spec(),
            final(self).dictations_spec() == old(self).dictations_spec(),
    {
        self.tray = STATE_IDLE;
    }
}

/// The error reported when no API key is configured.
pub fn missing_api_key_message() -> (r: String)
    ensures
        r@ == "No Deepgram API key configured"@,
{
    String::from_str("No Deepgram API key configured")
}

} // verus!
