//! Per-block voice classification through the external voice-activity
//! detector.
//!
//! The detector judges fixed-length windows of 16-bit integer samples.
//! The application converts each captured block to that integer format;
//! the library fits the converted block to the detector's window length
//! and asks for the decision, and feeds the decision — or its absence —
//! to the recording state machine.
use vstd::prelude::*;
use crate::recorder::{emitted_view, step_spec, RecordingSession};

verus! {

/// The capture stream runs at 48 kHz, where the detector accepts
/// windows of 10, 20 or 30 ms: 480, 960 or 1440 samples. Blocks are
/// judged on a 20 ms window.
pub const VAD_WINDOW: usize = 960;

/// The external voice-activity detector. It carries internal adaptive
/// state, so nothing relates its verdicts to the samples: every verdict
/// is handled either way.
#[verifier::external_type_specification]
#[verifier::external_body]
pub struct ExVad(webrtc_vad::Vad);

/// That a detector instance is configured for the 48 kHz capture
/// stream — what decides which window lengths it accepts. Established
/// by the constructor below and kept by judging windows; stated only
/// by name.
pub uninterp spec fn capture_rated(v: webrtc_vad::Vad) -> bool;

/// Relies on `webrtc_vad::Vad::new_with_rate`: builds a detector
/// configured for 48 kHz input. (It aborts only when the detector's
/// allocation fails, as any allocation may.)
#[verifier::external_body]
fn vad_for_capture() -> (r: webrtc_vad::Vad)
    ensures
        capture_rated(r),
{
    webrtc_vad::Vad::new_with_rate(webrtc_vad::SampleRate::Rate48kHz)
}

/// Relies on `webrtc_vad::Vad::is_voice_segment`: judges one window of
/// 16-bit samples, and errs exactly on a window length its configured
/// rate does not accept — for a 48 kHz detector, anything but 10, 20
/// or 30 ms, that is 480, 960 or 1440 samples. Judging adapts the
/// detector's internal state but never its configured rate. It reads
/// the window's first sample unconditionally, so the window must not
/// be empty. The verdict itself depends on the detector's internal
/// state and is not constrained.
pub assume_specification[ webrtc_vad::Vad::is_voice_segment ](
    vad: &mut webrtc_vad::Vad,
    buffer: &[i16],
) -> (r: Result<bool, ()>)
    requires
        buffer@.len() > 0,
    ensures
        capture_rated(*old(vad)) ==> capture_rated(*final(vad)),
        capture_rated(*old(vad)) && (buffer@.len() == 480 || buffer@.len() == 960 || buffer@.len()
            == 1440) ==> r is Ok,
;

/// Fit converted samples to a detector window: the first `window`
/// samples, padded at the end with zero (silent) samples if the block
/// is shorter than the window.
pub fn fit_window(samples: &Vec<i16>, window: usize) -> (r: Vec<i16>)
    ensures
        r@.len() == window,
        forall|i: int|
            0 <= i < window ==> r@[i] == (if i < samples@.len() {
                samples@[i]
            } else {
                0i16
            }),
{
    let mut r: Vec<i16> = Vec::new();
    let mut i: usize = 0;
    while i < window
        invariant
            i <= window,
            r@.len() == i,
            forall|j: int|
                0 <= j < i ==> r@[j] == (if j < samples@.len() {
                    samples@[j]
                } else {
                    0i16
                }),
        decreases window - i,
    {
        if i < samples.len() {
            r.push(samples[i]);
        } else {
            r.push(0i16);
        }
        i = i + 1;
    }
    r
}

/// The voice-activity collaborator as the worker holds it: the
/// external detector, known to be configured for the capture stream.
pub struct VoiceDetector {
    vad: webrtc_vad::Vad,
}

impl VoiceDetector {
    /// Configured for the capture stream.
    pub closed spec fn wf(&self) -> bool {
        capture_rated(self.vad)
    }

    /// A fresh detector for the capture stream.
    pub fn new() -> (r: VoiceDetector)
        ensures
            r.wf(),
    {
        VoiceDetector { vad: vad_for_capture() }
    }

    /// Ask the detector for this block's voice decision. The converted
    /// block is fitted to the detector's window first, so the detector
    /// always answers; a window it nevertheless refused would be
    /// reported as no decision.
    pub fn classify_block(&mut self, converted: &Vec<i16>) -> (r: Option<bool>)
        requires
            old(self).wf(),
        ensures
            final(self).wf(),
            r is Some,
    {
        let window = fit_window(converted, VAD_WINDOW);
        match self.vad.is_voice_segment(window.as_slice()) {
            Ok(v) => Some(v),
            Err(()) => None,
        }
    }
}

/// Feed one block and its voice decision — or the absence of one — to
/// the recording state machine. A block without a decision (the
/// detector failed to judge it) leaves the session exactly as it was:
/// no state change, no emission.
pub fn apply_decision(
    session: &mut RecordingSession,
    block: &Vec<u32>,
    decision: Option<bool>,
) -> (emitted: Option<Vec<u32>>)
    requires
        old(session)@.wf(),
    ensures
        final(session)@.wf(),
        decision is None ==> final(session)@ == old(session)@ && emitted is None,
        decision matches Some(v) ==> final(session)@ == step_spec(old(session)@, block@, v).0
            && emitted_view(emitted) == step_spec(old(session)@, block@, v).1,
{
    match decision {
        Some(v) => session.feed_block(block, v),
        None => None,
    }
}

/// Process one captured block on the worker thread: classify it (from
/// its converted 16-bit form) and step the recording state machine
/// with the verdict. Whatever the detector answered, the machine moves
/// by its transition table on this block and some verdict, and the
/// result is the utterance this block finished, if any.
pub fn process_block(
    session: &mut RecordingSession,
    detector: &mut VoiceDetector,
    block: &Vec<u32>,
    converted: &Vec<i16>,
) -> (emitted: Option<Vec<u32>>)
    requires
        old(session)@.wf(),
        old(detector).wf(),
    ensures
        final(session)@.wf(),
        final(detector).wf(),
        exists|v: bool|
            final(session)@ == #[trigger] step_spec(old(session)@, block@, v).0 && emitted_view(
                emitted,
            ) == step_spec(old(session)@, block@, v).1,
{
    let decision = detector.classify_block(converted);
    let emitted = apply_decision(session, block, decision);
    proof {
        let v = decision->Some_0;
        assert(session@ == step_spec(old(session)@, block@, v).0 && emitted_view(emitted)
            == step_spec(old(session)@, block@, v).1);
    }
    emitted
}

} // verus!
