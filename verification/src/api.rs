//! Speech-to-text service clients.

pub mod deepgram;
