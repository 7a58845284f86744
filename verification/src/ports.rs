//! Port-routing decisions of the audio bridge.
//!
//! At startup the bridge connects its output to every configured
//! destination, and temporarily severs any destination that is wired
//! straight to the input source — otherwise the raw microphone signal
//! would play alongside the synthesized reply. What was severed is
//! recorded, and restored exactly once at shutdown.
use vstd::prelude::*;

verus! {

/// What to do with one configured output destination at startup.
#[derive(Clone, Copy, Debug, PartialEq, Eq, Structural)]
pub enum PortPlan {
    /// The destination does not exist: warn and skip it.
    Skip,
    /// Connect the output to it and leave it as it is.
    Connect,
    /// Connect the output to it, and sever its direct route from the
    /// input source for the session, recording it for restoration.
    ConnectAndIsolate,
}

/// Decide what to do with one output destination, given whether it
/// exists and whether it is wired directly to the input source.
pub fn plan_output_port(exists: bool, wired_to_input: bool) -> (p: PortPlan)
    ensures
        p == PortPlan::Skip <==> !exists,
        p == PortPlan::ConnectAndIsolate <==> exists && wired_to_input,
        p == PortPlan::Connect <==> exists && !wired_to_input,
{
    if !exists {
        PortPlan::Skip
    } else if wired_to_input {
        PortPlan::ConnectAndIsolate
    } else {
        PortPlan::Connect
    }
}

/// The routes severed at startup: the names of the output ports that
/// were wired directly to the input source. Recorded while the bridge
/// is set up, held for its whole lifetime, and consumed exactly once
/// at shutdown to restore the original connections.
pub struct PortTopology {
    severed: Vec<String>,
}

impl View for PortTopology {
    type V = Seq<String>;

    closed spec fn view(&self) -> Seq<String> {
        self.severed@
    }
}

impl PortTopology {
    /// No routes severed yet.
    pub fn new() -> (r: PortTopology)
        ensures
            r@ == Seq::<String>::empty(),
    {
        PortTopology { severed: Vec::new() }
    }

    /// Record one severed route, after the ones already recorded.
    pub fn record(&mut self, port: String)
        ensures
            final(self)@ == old(self)@.push(port),
    {
        self.severed.push(port);
    }

    /// How many routes were severed.
    pub fn len(&self) -> (n: usize)
        ensures
            n == self@.len(),
    {
        self.severed.len()
    }

    /// Hand every recorded route out for restoration, in the order
    /// they were severed, leaving nothing recorded. The caller
    /// reconnects each one to the input source.
    pub fn take_all(&mut self) -> (r: Vec<String>)
        ensures
            r@ == old(self)@,
            final(self)@ == Seq::<String>::empty(),
    {
        let mut r: Vec<String> = Vec::new();
        std::mem::swap(&mut r, &mut self.severed);
        r
    }
}

} // verus!
