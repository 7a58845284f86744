//! Assembling and judging transcription results.
//!
//! The transcription collaborator answers in segments; the library
//! joins them in order and discards an answer that says nothing — an
//! empty or whitespace-only transcript is a legitimate "nothing said",
//! not an error, and ends that utterance's processing quietly. Text
//! crosses the library boundary as its bytes.
use vstd::prelude::*;

verus! {

/// The views of a sequence of text segments, concatenated in order.
pub open spec fn concat_segments(segs: Seq<Vec<u8>>) -> Seq<u8>
    decreases segs.len(),
{
    if segs.len() == 0 {
        Seq::empty()
    } else {
        segs[0]@ + concat_segments(segs.drop_first())
    }
}

/// Concatenating one more segment appends its bytes at the end.
pub proof fn lemma_concat_segments_snoc(segs: Seq<Vec<u8>>, seg: Vec<u8>)
    ensures
        concat_segments(segs.push(seg)) == concat_segments(segs) + seg@,
    decreases segs.len(),
{
    if segs.len() == 0 {
        assert(segs.push(seg).drop_first() =~= segs);
        assert(concat_segments(segs.push(seg)) =~= concat_segments(segs) + seg@);
    } else {
        assert(segs.push(seg).drop_first() =~= segs.drop_first().push(seg));
        lemma_concat_segments_snoc(segs.drop_first(), seg);
        assert(concat_segments(segs.push(seg)) =~= concat_segments(segs) + seg@);
    }
}

/// Join the transcription's segments into one transcript, in segment
/// order, byte for byte.
pub fn join_segments(segments: &Vec<Vec<u8>>) -> (r: Vec<u8>)
    ensures
        r@ == concat_segments(segments@),
{
    let mut r: Vec<u8> = Vec::new();
    let n = segments.len();
    let mut i: usize = 0;
    while i < n
        invariant
            i <= n,
            n == segments@.len(),
            r@ == concat_segments(segments@.take(i as int)),
        decreases n - i,
    {
        append_bytes(&mut r, &segments[i]);
        i = i + 1;
        proof {
            assert(segments@.take(i as int) =~= segments@.take(i - 1).push(segments@[i - 1]));
            lemma_concat_segments_snoc(segments@.take(i - 1), segments@[i - 1]);
        }
    }
    proof {
        assert(segments@.take(n as int) =~= segments@);
    }
    r
}

/// A byte that blank text may consist of: space, tab, line feed or
/// carriage return.
pub open spec fn is_blank_byte(b: u8) -> bool {
    b == 32 || b == 9 || b == 10 || b == 13
}

/// Text that says nothing: every byte of it is blank (so empty text is
/// blank too).
pub open spec fn is_blank(s: Seq<u8>) -> bool {
    forall|i: int| 0 <= i < s.len() ==> is_blank_byte(#[trigger] s[i])
}

/// Keep a transcript only if it says something: a blank transcript —
/// empty or all whitespace — becomes nothing, any other comes back
/// unchanged.
pub fn drop_blank_text(text: Vec<u8>) -> (r: Option<Vec<u8>>)
    ensures
        r is None <==> is_blank(text@),
        r matches Some(t) ==> t@ == text@,
{
    let n = text.len();
    let mut i: usize = 0;
    while i < n
        invariant
            i <= n,
            n == text@.len(),
            forall|j: int| 0 <= j < i ==> is_blank_byte(#[trigger] text@[j]),
        decreases n - i,
    {
        let b = text[i];
        if !(b == 32 || b == 9 || b == 10 || b == 13) {
            return Some(text);
        }
        i = i + 1;
    }
    None
}

/// Append every byte of `src` to the end of `dst`, in order.
fn append_bytes(dst: &mut Vec<u8>, src: &Vec<u8>)
    ensures
        final(dst)@ == old(dst)@ + src@,
{
    let n = src.len();
    let mut i: usize = 0;
    while i < n
        invariant
            i <= n,
            n == src@.len(),
            dst@ == old(dst)@ + src@.take(i as int),
        decreases n - i,
    {
        dst.push(src[i]);
        i = i + 1;
        proof {
            assert(dst@ =~= old(dst)@ + src@.take(i as int));
        }
    }
    proof {
        assert(dst@ =~= old(dst)@ + src@);
    }
}

} // verus!
