//! The playback buffer: a FIFO sample queue feeding the real-time output
//! stream.
//!
//! The synthesis pipeline appends whole utterances to the back; the
//! real-time output path pops one cycle's worth of samples from the
//! front on every hardware cycle. A consumer never waits: popping from
//! an empty buffer yields the silence word instead of blocking.
use vstd::prelude::*;

verus! {

/// The sample word that stands for silence (the encoding of a zero
/// sample).
pub const SILENCE: u32 = 0;

/// What one pop yields on a queue with contents `s`: the front sample
/// and the rest, or silence and the unchanged (empty) queue.
pub open spec fn pop_spec(s: Seq<u32>) -> (u32, Seq<u32>) {
    if s.len() > 0 {
        (s[0], s.drop_first())
    } else {
        (SILENCE, s)
    }
}

/// What one rendered output cycle of `n` slots holds when the queue
/// contents are `s`: the front of the queue, padded with silence.
pub open spec fn rendered(s: Seq<u32>, n: nat) -> Seq<u32> {
    Seq::new(n, |i: int| if i < s.len() { s[i] } else { SILENCE })
}

/// How many samples a cycle of `n` slots consumes from a queue with
/// contents `s`.
pub open spec fn consumed(s: Seq<u32>, n: nat) -> nat {
    if n <= s.len() {
        n
    } else {
        s.len()
    }
}

/// The shared, ordered sample queue between the synthesis pipeline
/// (sole producer, append to the back) and the real-time output path
/// (sole consumer, pop from the front).
pub struct PlaybackBuffer {
    samples: std::collections::VecDeque<u32>,
}

impl View for PlaybackBuffer {
    type V = Seq<u32>;

    closed spec fn view(&self) -> Seq<u32> {
        self.samples@
    }
}

impl PlaybackBuffer {
    /// The empty buffer, created once at startup.
    pub fn new() -> (r: PlaybackBuffer)
        ensures
            r@ == Seq::<u32>::empty(),
    {
        PlaybackBuffer { samples: std::collections::VecDeque::new() }
    }

    /// How many samples are queued.
    pub fn len(&self) -> (n: usize)
        ensures
            n == self@.len(),
    {
        self.samples.len()
    }

    /// Append an utterance's samples to the back, in order.
    pub fn append(&mut self, utterance: &Vec<u32>)
        ensures
            final(self)@ == old(self)@ + utterance@,
    {
        let n = utterance.len();
        let mut i: usize = 0;
        while i < n
            invariant
                i <= n,
                n == utterance@.len(),
                self@ == old(self)@ + utterance@.take(i as int),
            decreases n - i,
        {
            self.samples.push_back(utterance[i]);
            i = i + 1;
            proof {
                assert(self@ =~= old(self)@ + utterance@.take(i as int));
            }
        }
        proof {
            assert(self@ =~= old(self)@ + utterance@);
        }
    }

    /// Pop the front sample, or yield silence when the buffer is empty.
    /// Never waits and never fails: an empty buffer means a silent
    /// output slot, not a stalled cycle.
    pub fn pop_or_silence(&mut self) -> (s: u32)
        ensures
            (s, final(self)@) == pop_spec(old(self)@),
            old(self)@.len() == 0 ==> s == SILENCE && final(self)@ == old(self)@,
    {
        match self.samples.pop_front() {
            Some(s) => s,
            None => SILENCE,
        }
    }

    /// Fill one output cycle of `slots` samples: pop from the front while
    /// samples remain, then pad with silence. This is the whole bounded
    /// critical section the real-time output path runs per cycle.
    pub fn render_cycle(&mut self, slots: usize) -> (out: Vec<u32>)
        ensures
            out@ == rendered(old(self)@, slots as nat),
            final(self)@ == old(self)@.skip(consumed(old(self)@, slots as nat) as int),
    {
        let mut out: Vec<u32> = Vec::new();
        let mut i: usize = 0;
        while i < slots
            invariant
                i <= slots,
                out@ == rendered(old(self)@, i as nat),
                self@ == old(self)@.skip(consumed(old(self)@, i as nat) as int),
            decreases slots - i,
        {
            let s = self.pop_or_silence();
            proof {
                assert(self@ =~= old(self)@.skip(consumed(old(self)@, (i + 1) as nat) as int));
            }
            out.push(s);
            i = i + 1;
            proof {
                assert(out@ =~= rendered(old(self)@, i as nat));
            }
        }
        out
    }
}

/// Round trip: the samples appended to an empty queue come back out, in
/// order and unchanged, when one cycle of exactly their number is
/// rendered — and the queue is empty again afterwards.
pub proof fn lemma_round_trip(s: Seq<u32>)
    ensures
        rendered(s, s.len()) == s,
        s.skip(consumed(s, s.len()) as int) == Seq::<u32>::empty(),
{
    assert(rendered(s, s.len()) =~= s);
    assert(s.skip(consumed(s, s.len()) as int) =~= Seq::<u32>::empty());
}

} // verus!
