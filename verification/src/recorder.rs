//! The voice-triggered recording state machine.
//!
//! The worker thread feeds it one captured block at a time, together
//! with the voice decision for that block. While idle it waits for a
//! voice block; once one arrives it accumulates every block, voiced or
//! not, until enough consecutive non-voice blocks have been seen, and
//! then emits the accumulated samples as one finished utterance.
use vstd::prelude::*;

verus! {

/// The mathematical state of a recording session: whether an utterance
/// is being captured, how many consecutive non-voice blocks ended it so
/// far, the samples captured since it began, and the configured number
/// of consecutive non-voice blocks that finishes it.
#[verifier::ext_equal]
pub ghost struct SessionView {
    pub recording: bool,
    pub silence_count: nat,
    pub accumulated: Seq<u32>,
    pub threshold: nat,
}

impl SessionView {
    /// Internal consistency: while an utterance is being captured the
    /// silence run is still short of the threshold (the session would
    /// have emitted and left the recording state otherwise). This is
    /// what keeps the machine counter from ever overflowing.
    pub open spec fn wf(self) -> bool {
        &&& self.threshold <= u32::MAX
        &&& self.silence_count <= u32::MAX
        &&& self.recording ==> (self.silence_count < self.threshold || (self.threshold == 0
            && self.silence_count == 0))
    }

    /// Waiting for a voice block, with nothing captured.
    pub open spec fn idle_empty(self) -> bool {
        !self.recording && self.accumulated.len() == 0
    }
}

/// One step of the state machine on a received block and its voice
/// decision: the next state and the utterance emitted by this step, if
/// any.
///
/// - idle, no voice: nothing changes;
/// - idle, voice: recording begins with this block as the whole
///   accumulator and a fresh silence run;
/// - recording, voice: the block is appended and the silence run
///   restarts;
/// - recording, no voice: the block is appended and the silence run
///   grows; when it reaches the threshold the accumulator is emitted as
///   a finished utterance and the session returns to idle.
pub open spec fn step_spec(s: SessionView, block: Seq<u32>, voice: bool) -> (SessionView, Option<
    Seq<u32>,
>) {
    if !s.recording {
        if voice {
            (
                SessionView {
                    recording: true,
                    silence_count: 0,
                    accumulated: block,
                    threshold: s.threshold,
                },
                None,
            )
        } else {
            (s, None)
        }
    } else {
        let acc = s.accumulated + block;
        if voice {
            (
                SessionView {
                    recording: true,
                    silence_count: 0,
                    accumulated: acc,
                    threshold: s.threshold,
                },
                None,
            )
        } else if s.silence_count + 1 >= s.threshold {
            (
                SessionView {
                    recording: false,
                    silence_count: s.silence_count + 1,
                    accumulated: Seq::empty(),
                    threshold: s.threshold,
                },
                Some(acc),
            )
        } else {
            (
                SessionView {
                    recording: true,
                    silence_count: s.silence_count + 1,
                    accumulated: acc,
                    threshold: s.threshold,
                },
                None,
            )
        }
    }
}

/// The view of an emitted utterance.
pub open spec fn emitted_view(e: Option<Vec<u32>>) -> Option<Seq<u32>> {
    match e {
        Some(u) => Some(u@),
        None => None,
    }
}

/// The recording session owned by the worker thread. Only the state
/// machine mutates it; it is reset every time a new utterance starts.
pub struct RecordingSession {
    recording: bool,
    silence_count: u32,
    accumulated: Vec<u32>,
    threshold: u32,
}

impl View for RecordingSession {
    type V = SessionView;

    closed spec fn view(&self) -> SessionView {
        SessionView {
            recording: self.recording,
            silence_count: self.silence_count as nat,
            accumulated: self.accumulated@,
            threshold: self.threshold as nat,
        }
    }
}

impl RecordingSession {
    /// A fresh idle session. `threshold` is the configured number of
    /// consecutive non-voice blocks that finishes an utterance.
    pub fn new(threshold: u32) -> (r: RecordingSession)
        ensures
            r@ == (SessionView {
                recording: false,
                silence_count: 0,
                accumulated: Seq::<u32>::empty(),
                threshold: threshold as nat,
            }),
            r@.wf(),
            r@.idle_empty(),
    {
        let r = RecordingSession { recording: false, silence_count: 0, accumulated: Vec::new(), threshold };
        proof {
            assert(r@ =~= SessionView {
                recording: false,
                silence_count: 0,
                accumulated: Seq::<u32>::empty(),
                threshold: threshold as nat,
            });
        }
        r
    }

    /// Whether an utterance is currently being captured.
    pub fn is_recording(&self) -> (r: bool)
        ensures
            r == self@.recording,
    {
        self.recording
    }

    /// The configured silence threshold.
    pub fn threshold(&self) -> (t: u32)
        ensures
            t == self@.threshold,
    {
        self.threshold
    }

    /// How many samples the current utterance has accumulated.
    pub fn accumulated_len(&self) -> (n: usize)
        ensures
            n == self@.accumulated.len(),
    {
        self.accumulated.len()
    }

    /// The current run of consecutive non-voice blocks.
    pub fn silence_count(&self) -> (c: u32)
        ensures
            c == self@.silence_count,
    {
        self.silence_count
    }

    /// Feed one received block and its voice decision to the state
    /// machine; the result is the utterance this block finished, if any.
    pub fn feed_block(&mut self, block: &Vec<u32>, voice: bool) -> (emitted: Option<Vec<u32>>)
        requires
            old(self)@.wf(),
        ensures
            final(self)@.wf(),
            final(self)@ == step_spec(old(self)@, block@, voice).0,
            emitted_view(emitted) == step_spec(old(self)@, block@, voice).1,
    {
        if !self.recording {
            if voice {
                self.silence_count = 0;
                self.accumulated.clear();
                push_all(&mut self.accumulated, block);
                self.recording = true;
                proof {
                    assert(self@ =~= step_spec(old(self)@, block@, voice).0);
                }
            }
            None
        } else {
            push_all(&mut self.accumulated, block);
            if voice {
                self.silence_count = 0;
                proof {
                    assert(self@ =~= step_spec(old(self)@, block@, voice).0);
                }
                None
            } else {
                self.silence_count = self.silence_count + 1;
                if self.silence_count >= self.threshold {
                    self.recording = false;
                    let mut utterance: Vec<u32> = Vec::new();
                    std::mem::swap(&mut utterance, &mut self.accumulated);
                    proof {
                        assert(self@ =~= step_spec(old(self)@, block@, voice).0);
                    }
                    Some(utterance)
                } else {
                    proof {
                        assert(self@ =~= step_spec(old(self)@, block@, voice).0);
                    }
                    None
                }
            }
        }
    }

    /// Abandon whatever is being captured: the accumulator is discarded
    /// and the session returns to idle. Nothing is emitted — this is
    /// what a shutdown request does to an unfinished utterance.
    pub fn discard(&mut self)
        ensures
            final(self)@ == (SessionView {
                recording: false,
                silence_count: old(self)@.silence_count,
                accumulated: Seq::<u32>::empty(),
                threshold: old(self)@.threshold,
            }),
            final(self)@.wf(),
            final(self)@.idle_empty(),
    {
        self.recording = false;
        self.accumulated.clear();
        proof {
            assert(self@ =~= SessionView {
                recording: false,
                silence_count: old(self)@.silence_count,
                accumulated: Seq::<u32>::empty(),
                threshold: old(self)@.threshold,
            });
        }
    }
}

/// The state after the machine has consumed a whole sequence of
/// events, each one received block with its voice decision.
pub open spec fn run(s: SessionView, events: Seq<(Seq<u32>, bool)>) -> SessionView
    decreases events.len(),
{
    if events.len() == 0 {
        s
    } else {
        run(step_spec(s, events[0].0, events[0].1).0, events.drop_first())
    }
}

/// Every utterance the machine emits while consuming `events`, in
/// emission order.
pub open spec fn emissions(s: SessionView, events: Seq<(Seq<u32>, bool)>) -> Seq<Seq<u32>>
    decreases events.len(),
{
    if events.len() == 0 {
        Seq::empty()
    } else {
        let emitted = step_spec(s, events[0].0, events[0].1).1;
        let rest = emissions(step_spec(s, events[0].0, events[0].1).0, events.drop_first());
        match emitted {
            Some(u) => seq![u] + rest,
            None => rest,
        }
    }
}

/// The blocks of a sequence of events, concatenated in arrival order.
pub open spec fn concat_blocks(events: Seq<(Seq<u32>, bool)>) -> Seq<u32>
    decreases events.len(),
{
    if events.len() == 0 {
        Seq::empty()
    } else {
        events[0].0 + concat_blocks(events.drop_first())
    }
}

/// Every event of the sequence carries a non-voice decision.
pub open spec fn all_silent(events: Seq<(Seq<u32>, bool)>) -> bool {
    forall|i: int| 0 <= i < events.len() ==> !(#[trigger] events[i]).1
}

/// Blocks paired with all-non-voice decisions.
pub open spec fn silent_events(blocks: Seq<Seq<u32>>) -> Seq<(Seq<u32>, bool)> {
    Seq::new(blocks.len(), |i: int| (blocks[i], false))
}

/// While the session is idle, non-voice blocks change nothing: the
/// state (and with it the accumulator) stays exactly as it was, and no
/// utterance is ever emitted.
pub proof fn lemma_idle_ignores_silence(s: SessionView, events: Seq<(Seq<u32>, bool)>)
    requires
        !s.recording,
        all_silent(events),
    ensures
        run(s, events) == s,
        emissions(s, events) == Seq::<Seq<u32>>::empty(),
    decreases events.len(),
{
    if events.len() > 0 {
        assert(!events[0].1);
        assert(step_spec(s, events[0].0, events[0].1).0 == s);
        assert(all_silent(events.drop_first())) by {
            assert forall|i: int| 0 <= i < events.drop_first().len() implies !(#[trigger] events
                .drop_first()[i]).1 by {
                assert(events.drop_first()[i] == events[i + 1]);
            }
        }
        lemma_idle_ignores_silence(s, events.drop_first());
    }
}

/// A single voice block received while idle starts a recording: the
/// session is recording afterwards, the silence run is fresh, and the
/// block is the entire accumulator (so it is its first part). Nothing
/// is emitted by that step.
pub proof fn lemma_voice_starts_recording(s: SessionView, block: Seq<u32>)
    requires
        !s.recording,
    ensures
        step_spec(s, block, true).0 == (SessionView {
            recording: true,
            silence_count: 0,
            accumulated: block,
            threshold: s.threshold,
        }),
        step_spec(s, block, true).1 is None,
{
}

/// While the machine is recording and emits nothing, it stays
/// recording and the accumulator grows by exactly the received blocks,
/// concatenated in arrival order.
pub proof fn lemma_recording_accumulates(s: SessionView, events: Seq<(Seq<u32>, bool)>)
    requires
        s.recording,
        emissions(s, events) == Seq::<Seq<u32>>::empty(),
    ensures
        run(s, events).recording,
        run(s, events).accumulated == s.accumulated + concat_blocks(events),
        run(s, events).threshold == s.threshold,
    decreases events.len(),
{
    if events.len() == 0 {
        assert(run(s, events).accumulated =~= s.accumulated + concat_blocks(events));
    } else {
        let step = step_spec(s, events[0].0, events[0].1);
        assert(step.1 is None) by {
            if step.1 is Some {
                assert(emissions(s, events)[0] == step.1->Some_0);
            }
        }
        assert(step.0.recording && step.0.accumulated == s.accumulated + events[0].0);
        assert(emissions(step.0, events.drop_first()) == Seq::<Seq<u32>>::empty());
        lemma_recording_accumulates(step.0, events.drop_first());
        assert(run(s, events).accumulated =~= s.accumulated + concat_blocks(events));
    }
}

/// Appending one more event to a run of events concatenates its block
/// at the end.
pub proof fn lemma_concat_blocks_snoc(events: Seq<(Seq<u32>, bool)>, e: (Seq<u32>, bool))
    ensures
        concat_blocks(events.push(e)) == concat_blocks(events) + e.0,
    decreases events.len(),
{
    if events.len() == 0 {
        assert(events.push(e).drop_first() =~= events);
        assert(concat_blocks(events.push(e)) =~= concat_blocks(events) + e.0);
    } else {
        assert(events.push(e).drop_first() =~= events.drop_first().push(e));
        lemma_concat_blocks_snoc(events.drop_first(), e);
        assert(concat_blocks(events.push(e)) =~= concat_blocks(events) + e.0);
    }
}

/// An emitted utterance is the concatenation, in arrival order, of
/// every block received from the step that started the recording to
/// the step that emitted it, both included: if the machine starts idle
/// and empty, the first event carries a voice decision, no utterance
/// is emitted before the last event, and the last event emits one,
/// then that utterance holds exactly the blocks of all the events.
pub proof fn lemma_utterance_is_concat(s: SessionView, events: Seq<(Seq<u32>, bool)>)
    requires
        s.idle_empty(),
        events.len() >= 1,
        events[0].1,
        emissions(s, events.take(events.len() - 1)) == Seq::<Seq<u32>>::empty(),
        step_spec(
            run(s, events.take(events.len() - 1)),
            events.last().0,
            events.last().1,
        ).1 is Some,
    ensures
        step_spec(run(s, events.take(events.len() - 1)), events.last().0, events.last().1).1
            == Some(concat_blocks(events)),
{
    let n = events.len() as int;
    let front = events.take(n - 1);
    if n == 1 {
        // The first event starts the recording and emits nothing, so
        // the premises cannot all hold with a single event.
        assert(front =~= Seq::<(Seq<u32>, bool)>::empty());
        assert(run(s, front) == s);
        assert(step_spec(s, events.last().0, events.last().1).1 is None);
    } else {
        // The first event starts the recording with its block.
        let s1 = step_spec(s, events[0].0, events[0].1).0;
        assert(s1.recording && s1.accumulated == events[0].0) by {
            assert(events[0].0 =~= Seq::<u32>::empty() + events[0].0);
        }
        // No emission happened while the rest of the front was
        // consumed.
        assert(front.len() > 0 && front[0] == events[0]);
        assert(emissions(s1, front.drop_first()) == Seq::<Seq<u32>>::empty()) by {
            assert(step_spec(s, front[0].0, front[0].1).1 is None);
        }
        // So the accumulator at the last event is the concatenation of
        // all the front blocks.
        lemma_recording_accumulates(s1, front.drop_first());
        let s2 = run(s1, front.drop_first());
        assert(run(s, front) == s2);
        assert(s2.accumulated =~= events[0].0 + concat_blocks(front.drop_first()));
        assert(s2.accumulated =~= concat_blocks(front));
        // The last event appends its own block and emits.
        let last = events.last();
        assert(step_spec(s2, last.0, last.1).1 == Some(s2.accumulated + last.0));
        assert(s2.accumulated + last.0 =~= concat_blocks(events)) by {
            assert(events =~= front.push(last));
            lemma_concat_blocks_snoc(front, last);
        }
    }
}

/// Exactly the threshold's worth of consecutive non-voice blocks ends
/// an utterance: starting from a recording state with a fresh silence
/// run, fewer non-voice blocks than the threshold leave the machine
/// recording with nothing emitted.
pub proof fn lemma_silence_short_of_threshold(s: SessionView, blocks: Seq<Seq<u32>>)
    requires
        s.recording,
        s.silence_count + blocks.len() < s.threshold,
    ensures
        run(s, silent_events(blocks)) == (SessionView {
            recording: true,
            silence_count: s.silence_count + blocks.len(),
            accumulated: s.accumulated + concat_blocks(silent_events(blocks)),
            threshold: s.threshold,
        }),
        emissions(s, silent_events(blocks)) == Seq::<Seq<u32>>::empty(),
    decreases blocks.len(),
{
    let events = silent_events(blocks);
    if blocks.len() == 0 {
        assert(run(s, events) =~= SessionView {
            recording: true,
            silence_count: s.silence_count + blocks.len(),
            accumulated: s.accumulated + concat_blocks(events),
            threshold: s.threshold,
        });
    } else {
        let s1 = step_spec(s, events[0].0, events[0].1).0;
        assert(s1 == (SessionView {
            recording: true,
            silence_count: s.silence_count + 1,
            accumulated: s.accumulated + blocks[0],
            threshold: s.threshold,
        }));
        assert(events.drop_first() =~= silent_events(blocks.drop_first()));
        lemma_silence_short_of_threshold(s1, blocks.drop_first());
        assert(run(s, events).accumulated =~= s.accumulated + concat_blocks(events));
        assert(run(s, events) =~= SessionView {
            recording: true,
            silence_count: s.silence_count + blocks.len(),
            accumulated: s.accumulated + concat_blocks(events),
            threshold: s.threshold,
        });
    }
}

/// Exactly the threshold's worth of consecutive non-voice blocks ends
/// an utterance: starting from a recording state with a fresh silence
/// run, the threshold-th consecutive non-voice block emits the
/// accumulator extended by all of those blocks, and the machine
/// returns to idle. (Together with `lemma_silence_short_of_threshold`,
/// one block fewer emits nothing.)
pub proof fn lemma_silence_reaches_threshold(s: SessionView, blocks: Seq<Seq<u32>>)
    requires
        s.recording,
        s.silence_count == 0,
        s.threshold >= 1,
        blocks.len() == s.threshold,
    ensures
        emissions(s, silent_events(blocks).take(blocks.len() - 1)) == Seq::<Seq<u32>>::empty(),
        !run(s, silent_events(blocks)).recording,
        emissions(s, silent_events(blocks)) == seq![
            s.accumulated + concat_blocks(silent_events(blocks)),
        ],
{
    let events = silent_events(blocks);
    let n = blocks.len() as int;
    let front = events.take(n - 1);
    assert(front =~= silent_events(blocks.take(n - 1)));
    lemma_silence_short_of_threshold(s, blocks.take(n - 1));
    let s2 = run(s, front);
    // The last non-voice block pushes the silence run to the
    // threshold, so this step emits.
    let last = events.last();
    assert(!last.1);
    assert(step_spec(s2, last.0, last.1).1 == Some(s2.accumulated + last.0));
    assert(!step_spec(s2, last.0, last.1).0.recording);
    assert(s2.accumulated + last.0 =~= s.accumulated + concat_blocks(events)) by {
        assert(events =~= front.push(last));
        lemma_concat_blocks_snoc(front, last);
    }
    lemma_run_snoc(s, front, last);
    lemma_emissions_snoc(s, front, last);
    assert(emissions(s, events) =~= seq![s.accumulated + concat_blocks(events)]);
}

/// Running one more event after a sequence of events steps from the
/// state the sequence reached.
pub proof fn lemma_run_snoc(s: SessionView, events: Seq<(Seq<u32>, bool)>, e: (Seq<u32>, bool))
    ensures
        run(s, events.push(e)) == step_spec(run(s, events), e.0, e.1).0,
    decreases events.len(),
{
    let ep = events.push(e);
    if events.len() == 0 {
        assert(ep[0] == e);
        assert(ep.drop_first() =~= Seq::<(Seq<u32>, bool)>::empty());
        assert(run(s, ep) == run(step_spec(s, e.0, e.1).0, ep.drop_first()));
        assert(run(step_spec(s, e.0, e.1).0, ep.drop_first()) == step_spec(s, e.0, e.1).0);
        assert(run(s, events) == s);
    } else {
        let s1 = step_spec(s, events[0].0, events[0].1).0;
        assert(ep[0] == events[0]);
        assert(ep.drop_first() =~= events.drop_first().push(e));
        assert(run(s, ep) == run(s1, ep.drop_first()));
        lemma_run_snoc(s1, events.drop_first(), e);
        assert(run(s, events) == run(s1, events.drop_first()));
    }
}

/// The emissions of a run extended by one event are the emissions of
/// the run followed by whatever the extra event emits.
pub proof fn lemma_emissions_snoc(
    s: SessionView,
    events: Seq<(Seq<u32>, bool)>,
    e: (Seq<u32>, bool),
)
    ensures
        emissions(s, events.push(e)) == emissions(s, events) + (match step_spec(
            run(s, events),
            e.0,
            e.1,
        ).1 {
            Some(u) => seq![u],
            None => Seq::<Seq<u32>>::empty(),
        }),
    decreases events.len(),
{
    let ep = events.push(e);
    if events.len() == 0 {
        assert(ep[0] == e);
        assert(ep.drop_first() =~= Seq::<(Seq<u32>, bool)>::empty());
        assert(emissions(step_spec(s, e.0, e.1).0, ep.drop_first()) == Seq::<Seq<u32>>::empty());
        assert(run(s, events) == s);
        assert(emissions(s, events) == Seq::<Seq<u32>>::empty());
        assert(emissions(s, ep) =~= emissions(s, events) + (match step_spec(
            run(s, events),
            e.0,
            e.1,
        ).1 {
            Some(u) => seq![u],
            None => Seq::<Seq<u32>>::empty(),
        }));
    } else {
        let s1 = step_spec(s, events[0].0, events[0].1).0;
        assert(ep[0] == events[0]);
        assert(ep.drop_first() =~= events.drop_first().push(e));
        lemma_emissions_snoc(s1, events.drop_first(), e);
        lemma_run_snoc(s, events, e);
        assert(run(s, events) == run(s1, events.drop_first()));
        assert(emissions(s, ep) == (match step_spec(s, ep[0].0, ep[0].1).1 {
            Some(u) => seq![u] + emissions(s1, ep.drop_first()),
            None => emissions(s1, ep.drop_first()),
        }));
        assert(emissions(s, events) == (match step_spec(s, events[0].0, events[0].1).1 {
            Some(u) => seq![u] + emissions(s1, events.drop_first()),
            None => emissions(s1, events.drop_first()),
        }));
        assert(emissions(s, ep) =~= emissions(s, events) + (match step_spec(
            run(s, events),
            e.0,
            e.1,
        ).1 {
            Some(u) => seq![u],
            None => Seq::<Seq<u32>>::empty(),
        }));
    }
}

/// Append every sample of `src` to the end of `dst`, in order.
fn push_all(dst: &mut Vec<u32>, src: &Vec<u32>)
    ensures
        final(dst)@ == old(dst)@ + src@,
{
    let n = src.len();
    let mut i: usize = 0;
    while i < n
        invariant
            i <= n,
            n == src@.len(),
            dst@ == old(dst)@ + src@.take(i as int),
        decreases n - i,
    {
        dst.push(src[i]);
        i = i + 1;
        proof {
            assert(dst@ =~= old(dst)@ + src@.take(i as int));
        }
    }
    proof {
        assert(dst@ =~= old(dst)@ + src@);
    }
}

} // verus!

