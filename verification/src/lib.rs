//! A real-time, voice-triggered speech bridge.
//!
//! The library holds the logic of the bridge: the playback sample queue
//! shared between the real-time output path and the synthesis pipeline,
//! the voice-triggered recording state machine, the per-block voice
//! classification, the utterance pipeline, and the port-routing and
//! text-to-speech setup decisions. Hardware I/O, HTTP, process spawning
//! and floating-point sample conversion live in the surrounding
//! application, which hands the library plain values.
//!
//! Audio samples cross the library boundary as opaque 32-bit words: the
//! application encodes each hardware sample into one word (one for one)
//! and decodes the words it gets back. The all-zero word stands for
//! silence. The library never inspects a sample's value, so the encoding
//! is free to be the sample's machine representation.
use vstd::prelude::*;

pub mod config;
pub mod pipeline;
pub mod piper;
pub mod playback;
pub mod ports;
pub mod recorder;
pub mod transcript;
pub mod vad;

verus! {

/// One message from the real-time capture thread to the worker thread:
/// either one hardware cycle's worth of captured samples, or the request
/// to shut the worker down. `Quit` is terminal: the worker's receive loop
/// exits as soon as it sees it.
pub enum ProcessUnit {
    Continue(Vec<u32>),
    Quit,
}

} // verus!
