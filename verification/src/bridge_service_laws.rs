//! What holds of every run of the service: events come once per cadence,
//! and their sequence numbers count up without a gap.

use vstd::prelude::*;
use crate::bridge_proto::PacketView;
use crate::bridge_service::ServiceState;
use crate::mock_bus::lemma_steps_advance;
use crate::wrap::succ16;

verus! {

/// What can be asked of the service between two events.
pub enum ServiceOp {
    /// A poll for an unsolicited event.
    Poll,
    /// A request from the host.
    Request(PacketView),
}

/// The service after `op`.
pub open spec fn after_op(s: ServiceState, op: ServiceOp) -> ServiceState {
    match op {
        ServiceOp::Poll => s.after_poll(),
        ServiceOp::Request(req) => s.after_request(req),
    }
}

/// The unsolicited event that `op` yields.
pub open spec fn event_of(s: ServiceState, op: ServiceOp) -> Option<PacketView> {
    match op {
        ServiceOp::Poll => s.poll_event(),
        ServiceOp::Request(_) => None,
    }
}

/// The service after all of `ops`, first to last.
pub open spec fn after_ops(s: ServiceState, ops: Seq<ServiceOp>) -> ServiceState
    decreases ops.len(),
{
    if ops.len() == 0 {
        s
    } else {
        after_op(after_ops(s, ops.drop_last()), ops.last())
    }
}

/// None of `ops`, run first to last from `s`, yields an event.
pub open spec fn quiet(s: ServiceState, ops: Seq<ServiceOp>) -> bool
    decreases ops.len(),
{
    if ops.len() == 0 {
        true
    } else {
        &&& quiet(s, ops.drop_last())
        &&& event_of(after_ops(s, ops.drop_last()), ops.last()) is None
    }
}

/// The service after `n` polls.
pub open spec fn after_polls(s: ServiceState, n: nat) -> ServiceState
    decreases n,
{
    if n == 0 {
        s
    } else {
        after_polls(s, (n - 1) as nat).after_poll()
    }
}

/// Polls and requests that yield no event leave the sequence counter of
/// the events as it is.
pub proof fn lemma_quiet_keeps_seq(s: ServiceState, ops: Seq<ServiceOp>)
    requires
        quiet(s, ops),
    ensures
        after_ops(s, ops).telemetry_seq == s.telemetry_seq,
    decreases ops.len(),
{
    if ops.len() > 0 {
        lemma_quiet_keeps_seq(s, ops.drop_last());
    }
}

/// The sequence numbers of successive events count up by one, and start
/// again at zero after the largest: whatever polls and requests lie between
/// two events, the second event carries the number after the first one's.
pub proof fn lemma_successive_events_count_up(s: ServiceState, between: Seq<ServiceOp>)
    requires
        s.poll_event() is Some,
        quiet(s.after_poll(), between),
        after_ops(s.after_poll(), between).poll_event() is Some,
    ensures
        after_ops(s.after_poll(), between).poll_event()->0.seq == succ16(s.poll_event()->0.seq),
{
    lemma_quiet_keeps_seq(s.after_poll(), between);
}

/// While telemetry is enabled, polling walks the cadence: after `n` polls
/// the mock bus stands `n` places further.
pub proof fn lemma_polls_walk_cadence(s: ServiceState, n: nat)
    requires
        s.wf(),
        s.telemetry_enabled,
    ensures
        after_polls(s, n).wf(),
        after_polls(s, n).telemetry_enabled,
        after_polls(s, n).mock == s.mock.steps(n),
        after_polls(s, n).mock.idx == (s.mock.idx + n) % 10,
    decreases n,
{
    if n > 0 {
        lemma_polls_walk_cadence(s, (n - 1) as nat);
    }
    lemma_steps_advance(s.mock, n);
}

/// While telemetry is enabled, exactly one poll in ten yields an event:
/// the one that consumes the last sub-query of the cadence.
pub proof fn lemma_event_once_per_cadence(s: ServiceState, n: nat)
    requires
        s.wf(),
        s.telemetry_enabled,
    ensures
        after_polls(s, n).poll_event() is Some <==> (s.mock.idx + n) % 10 == 9,
{
    lemma_polls_walk_cadence(s, n);
}

/// While telemetry is off, a poll yields nothing and changes nothing.
pub proof fn lemma_disabled_poll_is_idle(s: ServiceState)
    requires
        !s.telemetry_enabled,
    ensures
        s.poll_event() is None,
        s.after_poll() == s,
{
}

} // verus!
