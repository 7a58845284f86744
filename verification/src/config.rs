//! Configuration values, supplied before startup.
//!
//! The application reads and parses the configuration file and hands
//! these plain values over; malformed or missing configuration is a
//! fatal startup error reported there, before any audio client is
//! created.
use vstd::prelude::*;

verus! {

/// Which audio backend to bind to.
#[derive(Clone, Debug)]
pub enum AudioClientType {
    Jack,
}

/// The audio routing configuration: the hardware input source to
/// capture from and the output destinations to play to.
#[derive(Clone, Debug)]
pub struct AudioJackConfig {
    pub input_port: String,
    pub output_ports: Vec<String>,
}

/// The audio routing configuration of the backend-polymorphic client.
#[derive(Clone, Debug)]
pub struct JackConfig {
    pub input_port: String,
    pub output_ports: Vec<String>,
}

/// The audio section of the configuration: one entry per backend that
/// may be configured.
#[derive(Clone, Debug)]
pub struct AudioConfig {
    pub jack: Option<JackConfig>,
}

/// Input-trigger configuration: whether push-to-talk replaces the
/// voice-activity decision, and which key is polled for it.
#[derive(Clone, Debug)]
pub struct GeneralConfig {
    pub push_to_talk: bool,
    pub ptt_key: String,
}

/// Transcription configuration. `silence_length` is the recording
/// state machine's threshold: the number of consecutive non-voice
/// blocks that finishes an utterance (each block lasts one hardware
/// cycle).
#[derive(Clone, Debug)]
pub struct WhisperConfig {
    pub model: String,
    pub language: Option<String>,
    pub translate: bool,
    pub no_context: bool,
    pub silence_length: u32,
}

/// Speech-synthesis configuration: which voice model the synthesis
/// service loads.
#[derive(Clone, Debug)]
pub struct PiperConfig {
    pub model: String,
}

} // verus!
