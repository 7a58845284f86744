//! The utterance pipeline's verified half: decoding the synthesized
//! reply and queueing it for playback.
//!
//! On each finished utterance the worker asks the transcription
//! collaborator for text, posts the text to the synthesis service, and
//! gets a sound file back. The library decodes that file to samples and
//! appends the (resampled) result to the playback buffer; the
//! application does the posting and the sample-rate conversion, which
//! hand plain values in and out.
use vstd::prelude::*;
use crate::playback::PlaybackBuffer;

verus! {

/// The error a failed sound-file decode carries. The library passes it
/// through; only the application reads it.
#[verifier::external_type_specification]
#[verifier::external_body]
pub struct ExWavError(hound::Error);

/// Why an utterance could not be turned into queued playback. Each
/// variant belongs to one stage: fetching the synthesized reply,
/// decoding it, and resampling it. The stages run in the application,
/// except the decode; their errors are carried here as plain values.
#[derive(Debug)]
pub enum ErrPlayTTS {
    /// The synthesis service could not be reached or answered badly.
    ReqwestError(String),
    /// The synthesized reply was not a readable 16-bit sound file.
    HoundError(hound::Error),
    /// The reply could not be resampled to the playback rate.
    ResampleError(String),
}

/// What the sound-file decode yields on given file bytes: the 16-bit
/// sample words in order and the declared sample rate, or nothing when
/// the bytes are not a readable 16-bit sound file. The decode is a pure
/// function of the bytes, stated here only by name.
pub uninterp spec fn wav_decoded(bytes: Seq<u8>) -> Option<(Seq<i16>, u32)>;

/// Relies on `hound::WavReader`: `new` parses the header from the
/// in-memory bytes, `spec` yields the declared sample rate, and the
/// `samples` iterator yields every 16-bit sample in file order. The
/// whole decode reads nothing but the bytes, so its outcome is the
/// named `wav_decoded` of them.
#[verifier::external_body]
fn decode_wav_bytes(bytes: &Vec<u8>) -> (r: Result<(Vec<i16>, u32), hound::Error>)
    ensures
        r matches Ok(d) ==> wav_decoded(bytes@) == Some((d.0@, d.1)),
        r is Err ==> wav_decoded(bytes@) is None,
{
    let mut reader = hound::WavReader::new(std::io::Cursor::new(bytes.as_slice()))?;
    let rate = reader.spec().sample_rate;
    let samples: Result<Vec<i16>, hound::Error> = reader.samples::<i16>().collect();
    Ok((samples?, rate))
}

/// Decode a synthesized reply: the 16-bit samples and the declared
/// sample rate of the sound file in `bytes`, or the decode error when
/// the bytes are not a readable 16-bit sound file — exactly when the
/// named decode yields nothing.
pub fn decode_synthesis(bytes: &Vec<u8>) -> (r: Result<(Vec<i16>, u32), ErrPlayTTS>)
    ensures
        r matches Ok(d) ==> wav_decoded(bytes@) == Some((d.0@, d.1)),
        r matches Err(e) ==> wav_decoded(bytes@) is None && e is HoundError,
        r is Ok <==> wav_decoded(bytes@) is Some,
{
    match decode_wav_bytes(bytes) {
        Ok(d) => Ok(d),
        Err(e) => Err(ErrPlayTTS::HoundError(e)),
    }
}

/// Queue a synthesized, resampled utterance for playback, or absorb
/// its failure: a failed synthesis leaves the playback buffer exactly
/// as it was and hands the failure back, so the worker can log it and
/// go on with the next message.
pub fn queue_playback(buffer: &mut PlaybackBuffer, synthesized: Result<Vec<u32>, ErrPlayTTS>) -> (r:
    Result<(), ErrPlayTTS>)
    ensures
        synthesized matches Ok(v) ==> final(buffer)@ == old(buffer)@ + v@ && r is Ok,
        synthesized matches Err(e) ==> final(buffer)@ == old(buffer)@ && r == Err::<(), ErrPlayTTS>(
            e,
        ),
{
    match synthesized {
        Ok(v) => {
            buffer.append(&v);
            Ok(())
        },
        Err(e) => Err(e),
    }
}

/// The bytes that precede the text in a synthesis request body.
pub open spec fn body_prefix() -> Seq<u8> {
    seq![123u8, 32u8, 34u8, 116u8, 101u8, 120u8, 116u8, 34u8, 58u8, 32u8, 34u8]
}

/// The bytes that follow the text in a synthesis request body.
pub open spec fn body_suffix() -> Seq<u8> {
    seq![34u8, 32u8, 125u8]
}

/// Build the synthesis request body around the transcribed text: the
/// text becomes the value of the `text` field, inserted byte for byte.
pub fn tts_request_body(text: &Vec<u8>) -> (r: Vec<u8>)
    ensures
        r@ == body_prefix() + text@ + body_suffix(),
{
    let mut r: Vec<u8> = Vec::new();
    r.push(123u8);  // {
    r.push(32u8);  // space
    r.push(34u8);  // "
    r.push(116u8);  // t
    r.push(101u8);  // e
    r.push(120u8);  // x
    r.push(116u8);  // t
    r.push(34u8);  // "
    r.push(58u8);  // :
    r.push(32u8);  // space
    r.push(34u8);  // "
    proof {
        assert(r@ =~= body_prefix());
    }
    let n = text.len();
    let mut i: usize = 0;
    while i < n
        invariant
            i <= n,
            n == text@.len(),
            r@ == body_prefix() + text@.take(i as int),
        decreases n - i,
    {
        r.push(text[i]);
        i = i + 1;
        proof {
            assert(r@ =~= body_prefix() + text@.take(i as int));
        }
    }
    proof {
        assert(r@ =~= body_prefix() + text@);
    }
    r.push(34u8);  // "
    r.push(32u8);  // space
    r.push(125u8);  // }
    proof {
        assert(r@ =~= body_prefix() + text@ + body_suffix());
    }
    r
}

} // verus!
