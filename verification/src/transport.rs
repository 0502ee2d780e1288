//! Transport control and the fault channel.
//!
//! The decode engine reports events on a polled, non-blocking channel.  Two
//! kinds matter: end-of-stream, absorbed by resetting the graph to idle and
//! starting it again (the loop), and a fatal error, which ends playback.
//! Everything else is ignored.

use vstd::prelude::*;
use crate::graph::GraphPlan;
use crate::graph::VideoVariant;

verus! {

/// The engine-level state the graph is commanded into.
#[derive(Clone, Copy, Debug, PartialEq, Eq, Structural)]
pub enum EngineState {
    /// Torn down to idle; nothing runs.
    Idle,
    /// Built and clocked, but not advancing.
    Paused,
    /// Advancing on the playback clock.
    Playing,
}

/// One engine-level state change to apply to the graph.
#[derive(Clone, Copy, Debug, PartialEq, Eq, Structural)]
pub enum TransportOp {
    SetIdle,
    SetPaused,
    SetPlaying,
}

/// One event drained from the fault channel.
#[derive(Clone, Copy, Debug, PartialEq, Eq, Structural)]
pub enum BusEvent {
    /// The stream ran out: not an error; the graph is restarted.
    EndOfStream,
    /// An unrecoverable engine fault: playback ends.
    FatalError,
    /// Any other event kind: ignored.
    Other,
}

/// The state a sequence of applied operations leaves the engine in.
pub open spec fn spec_state_after(start: EngineState, ops: Seq<TransportOp>) -> EngineState
    decreases ops.len(),
{
    if ops.len() == 0 {
        start
    } else {
        match ops.last() {
            TransportOp::SetIdle => EngineState::Idle,
            TransportOp::SetPaused => EngineState::Paused,
            TransportOp::SetPlaying => EngineState::Playing,
        }
    }
}

/// The operations owed for a drained event sequence: each end-of-stream
/// before the first fatal error contributes a full reset followed by a fresh
/// start — a clean restart rather than an in-place rewind — and a fatal
/// error stops the drain.
pub open spec fn spec_bus_ops(events: Seq<BusEvent>) -> Seq<TransportOp>
    decreases events.len(),
{
    if events.len() == 0 {
        seq![]
    } else {
        match events[0] {
            BusEvent::EndOfStream => seq![TransportOp::SetIdle, TransportOp::SetPlaying]
                + spec_bus_ops(events.drop_first()),
            BusEvent::FatalError => seq![],
            BusEvent::Other => spec_bus_ops(events.drop_first()),
        }
    }
}

/// Whether the drain reports a fatal fault: the sequence holds a fatal error
/// (the drain always reaches the first one, since nothing else stops it).
pub open spec fn spec_bus_fatal(events: Seq<BusEvent>) -> bool
    decreases events.len(),
{
    if events.len() == 0 {
        false
    } else {
        match events[0] {
            BusEvent::FatalError => true,
            _ => spec_bus_fatal(events.drop_first()),
        }
    }
}

/// The drain reports a fatal fault exactly when the drained sequence
/// contains one.
pub proof fn lemma_fatal_iff_contains(events: Seq<BusEvent>)
    ensures
        spec_bus_fatal(events) <==> events.contains(BusEvent::FatalError),
    decreases events.len(),
{
    if events.len() > 0 {
        lemma_fatal_iff_contains(events.drop_first());
        if events[0] == BusEvent::FatalError {
            assert(events.contains(BusEvent::FatalError));
        } else {
            if events.drop_first().contains(BusEvent::FatalError) {
                let i = choose|i: int|
                    0 <= i < events.drop_first().len() && events.drop_first()[i]
                        == BusEvent::FatalError;
                assert(events[i + 1] == BusEvent::FatalError);
            }
            if events.contains(BusEvent::FatalError) {
                let i = choose|i: int| 0 <= i < events.len() && events[i] == BusEvent::FatalError;
                assert(events.drop_first()[i - 1] == BusEvent::FatalError);
            }
        }
    }
}

/// The verified face of the decode graph: the plan it was built from and the
/// engine state it was last commanded into.  The unverified surroundings own
/// the engine itself and apply each returned operation to it.
pub struct Pipeline {
    pub plan: GraphPlan,
    pub engine_state: EngineState,
}

impl Pipeline {
    pub open spec fn wf(self) -> bool {
        self.plan.wf()
    }

    /// Adopt a freshly built graph, idle until started.
    pub fn new(plan: GraphPlan) -> (p: Pipeline)
        requires
            plan.wf(),
        ensures
            p.wf(),
            p.plan == plan,
            p.engine_state == EngineState::Idle,
    {
        Pipeline { plan, engine_state: EngineState::Idle }
    }

    /// Whether the software video chain is the active one.
    pub fn is_software_fallback(&self) -> (r: bool)
        ensures
            r == (self.plan.variant == VideoVariant::Software),
    {
        match self.plan.variant {
            VideoVariant::Software => true,
            VideoVariant::Hardware => false,
        }
    }

    /// Start playback.
    pub fn play(&mut self) -> (op: TransportOp)
        ensures
            op == TransportOp::SetPlaying,
            final(self).engine_state == EngineState::Playing,
            final(self).plan == old(self).plan,
    {
        self.engine_state = EngineState::Playing;
        TransportOp::SetPlaying
    }

    /// Hold playback.  Commanding a graph already paused is a harmless
    /// repeat at the engine.
    pub fn pause(&mut self) -> (op: TransportOp)
        ensures
            op == TransportOp::SetPaused,
            final(self).engine_state == EngineState::Paused,
            final(self).plan == old(self).plan,
    {
        self.engine_state = EngineState::Paused;
        TransportOp::SetPaused
    }

    /// Continue playback after a hold.
    pub fn resume(&mut self) -> (op: TransportOp)
        ensures
            op == TransportOp::SetPlaying,
            final(self).engine_state == EngineState::Playing,
            final(self).plan == old(self).plan,
    {
        self.engine_state = EngineState::Playing;
        TransportOp::SetPlaying
    }

    /// Drain the fault channel's events: returns the operations to apply, in
    /// order, and whether a fatal fault ends playback.
    pub fn handle_bus(&mut self, events: &Vec<BusEvent>) -> (r: (Vec<TransportOp>, bool))
        ensures
            r.0@ == spec_bus_ops(events@),
            r.1 == spec_bus_fatal(events@),
            final(self).engine_state == spec_state_after(old(self).engine_state, spec_bus_ops(events@)),
            final(self).plan == old(self).plan,
    {
        let mut ops: Vec<TransportOp> = Vec::new();
        let n: usize = events.len();
        let mut k: usize = 0;
        proof {
            assert(events@.skip(0) =~= events@);
            assert(ops@ + spec_bus_ops(events@) =~= spec_bus_ops(events@));
        }
        while k < n
            invariant
                k <= n,
                n == events@.len(),
                spec_bus_ops(events@) == ops@ + spec_bus_ops(events@.skip(k as int)),
                spec_bus_fatal(events@) == spec_bus_fatal(events@.skip(k as int)),
                self.engine_state == spec_state_after(
                    old(self).engine_state,
                    ops@,
                ),
                self.plan == old(self).plan,
            decreases n - k,
        {
            let ghost rest = events@.skip(k as int);
            proof {
                assert(rest[0] == events@[k as int]);
                assert(rest.drop_first() =~= events@.skip(k as int + 1));
            }
            match events[k] {
                BusEvent::EndOfStream => {
                    ops.push(TransportOp::SetIdle);
                    ops.push(TransportOp::SetPlaying);
                    self.engine_state = EngineState::Playing;
                    proof {
                        assert(ops@ + spec_bus_ops(events@.skip(k as int + 1)) =~= spec_bus_ops(
                            events@,
                        ));
                    }
                },
                BusEvent::FatalError => {
                    proof {
                        assert(spec_bus_ops(rest) =~= Seq::<TransportOp>::empty());
                        assert(ops@ + spec_bus_ops(rest) =~= ops@);
                    }
                    return (ops, true);
                },
                BusEvent::Other => {},
            }
            k = k + 1;
        }
        proof {
            assert(events@.skip(n as int) =~= Seq::<BusEvent>::empty());
            assert(ops@ + spec_bus_ops(events@.skip(n as int)) =~= ops@);
        }
        (ops, false)
    }
}

} // verus!
