//! The session gate adaptation: translates the transport's asynchronous
//! connectivity callbacks into the two driver-relevant events, delivering
//! each at most once however often the underlying callback fires. The
//! callback context only asks the adapter whether to forward a signal;
//! never mutates driver state itself.

use vstd::prelude::*;

verus! {

/// The adapter's memory of what it has already forwarded.
#[derive(Clone, Copy, PartialEq, Eq, Structural, Debug)]
pub struct SessionGate {
    pub connected_emitted: bool,
    pub terminated_emitted: bool,
}

/// The adapter after one connected callback: the start signal is spent,
/// whether or not this delivery emitted it.
pub open spec fn gate_after_connected(g: SessionGate) -> SessionGate {
    SessionGate { connected_emitted: true, ..g }
}

/// Whether a connected callback delivered to `g` emits the start signal.
pub open spec fn gate_emits_connected(g: SessionGate) -> bool {
    !g.connected_emitted
}

/// The adapter after one terminated callback.
pub open spec fn gate_after_terminated(g: SessionGate) -> SessionGate {
    SessionGate { terminated_emitted: true, ..g }
}

/// Whether a terminated callback delivered to `g` emits the stop signal.
pub open spec fn gate_emits_terminated(g: SessionGate) -> bool {
    !g.terminated_emitted
}

impl SessionGate {
    /// A fresh gate: nothing forwarded yet.
    pub fn new() -> (g: SessionGate)
        ensures
            !g.connected_emitted,
            !g.terminated_emitted,
    {
        SessionGate { connected_emitted: false, terminated_emitted: false }
    }

    /// One connected callback arrived; the result says whether to forward
    /// the start signal. It is true at most once over the adapter's life.
    pub fn observe_connected(&mut self) -> (emit: bool)
        ensures
            emit == gate_emits_connected(*old(self)),
            *final(self) == gate_after_connected(*old(self)),
    {
        let emit = !self.connected_emitted;
        self.connected_emitted = true;
        emit
    }

    /// One terminated callback arrived; the result says whether to forward
    /// the stop signal. It is true at most once over the adapter's life.
    pub fn observe_terminated(&mut self) -> (emit: bool)
        ensures
            emit == gate_emits_terminated(*old(self)),
            *final(self) == gate_after_terminated(*old(self)),
    {
        let emit = !self.terminated_emitted;
        self.terminated_emitted = true;
        emit
    }
}

/// Law: delivering the connected callback twice forwards the start signal
/// at most once — the delivery after any delivery never emits — and a
/// second delivery leaves the adapter as the first did.
pub proof fn lemma_connected_forwarded_once(g: SessionGate)
    ensures
        !gate_emits_connected(gate_after_connected(g)),
        gate_after_connected(gate_after_connected(g)) == gate_after_connected(g),
{
}

/// Law: the terminated signal is forwarded at most once, the same way.
pub proof fn lemma_terminated_forwarded_once(g: SessionGate)
    ensures
        !gate_emits_terminated(gate_after_terminated(g)),
        gate_after_terminated(gate_after_terminated(g)) == gate_after_terminated(g),
{
}

} // verus!
