//! Hold-to-talk dictation for Linux: the decisions of the daemon, verified.
//!
//! Every module here is plain computation: the configuration model, the
//! hotkey state machine that turns raw key events into press/release events,
//! the tray status, the text-injection strategy, the dependency check, and the
//! speech-to-text request and response handling. The program around it
//! (devices, processes, network, terminal) lives in `app/`.

pub mod text;
pub mod config;
pub mod hotkey;
pub mod applet;
pub mod inject;
pub mod audio;
pub mod api;
pub mod setup;
pub mod dictation;
