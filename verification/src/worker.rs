//! The worker's bounded FIFO queue and its at-most-two-attempts retry policy.
//!
//! One dedicated worker serializes all roundtrips: it takes requests off a
//! bounded queue in arrival order, runs each under the protocol timeout, and
//! on a fault discards the connection and tries once more before giving up
//! with a synthetic error reply.

use vstd::prelude::*;
use vstd::string::StrSliceExecFns;
use vstd::string::StringSliceAdditionalSpecFns;

use crate::conn::conn_after;
use crate::conn::rt_begin;
use crate::frame::spec_frame;
use crate::conn::ConnHealth;
use crate::conn::OutcomeView;
use crate::conn::RoundTrip;
use crate::conn::RtOutcome;
use crate::wire::IpcRequest;
use crate::wire::IpcResponse;
use crate::wire::ReqView;
use crate::wire::RespView;

verus! {

/// How many requests may wait at once; an enqueue beyond this is refused and
/// the façade answers with the neutral default instead of blocking.
pub const QUEUE_CAPACITY: usize = 32;

/// The bounded FIFO queue of pending requests.
#[derive(Debug)]
pub struct RequestQueue {
    items: Vec<IpcRequest>,
}

impl View for RequestQueue {
    type V = Seq<ReqView>;

    closed spec fn view(&self) -> Seq<ReqView> {
        self.items@.map_values(|r: IpcRequest| r@)
    }
}

impl RequestQueue {
    /// An empty queue.
    pub fn new() -> (q: RequestQueue)
        ensures
            q@ == Seq::<ReqView>::empty(),
    {
        let q = RequestQueue { items: Vec::new() };
        proof {
            assert(q@ =~= Seq::<ReqView>::empty());
        }
        q
    }

    /// How many requests are waiting.
    pub fn len(&self) -> (n: usize)
        ensures
            n == self@.len(),
    {
        self.items.len()
    }

    /// Appends a request unless the queue is full.  Never blocks: a full
    /// queue refuses the request and stays as it was.
    pub fn enqueue(&mut self, r: IpcRequest) -> (ok: bool)
        ensures
            old(self)@.len() < QUEUE_CAPACITY ==> ok && final(self)@ == old(self)@.push(r@),
            old(self)@.len() >= QUEUE_CAPACITY ==> !ok && final(self)@ == old(self)@,
    {
        let ghost rv = r@;
        if self.items.len() < QUEUE_CAPACITY {
            self.items.push(r);
            proof {
                assert(self@ =~= old(self)@.push(rv));
            }
            true
        } else {
            false
        }
    }

    /// Removes and returns the oldest request, if any.
    pub fn dequeue(&mut self) -> (r: Option<IpcRequest>)
        ensures
            old(self)@.len() == 0 ==> r is None && final(self)@ == old(self)@,
            old(self)@.len() > 0 ==> (r matches Some(x) && x@ == old(self)@[0] && final(self)@
                == old(self)@.skip(1)),
    {
        if self.items.len() == 0 {
            None
        } else {
            let x = self.items.remove(0);
            proof {
                assert(self@ =~= old(self)@.skip(1));
            }
            Some(x)
        }
    }
}

/// One step against an abstract queue: a request arriving, or the worker
/// taking the next request to start its roundtrip.
pub enum QueueOp {
    Arrive(ReqView),
    Take,
}

/// What a run of queue steps produced: the requests still pending, every
/// request the queue accepted, and every request handed to a roundtrip, each
/// in order.
pub struct QueueTrace {
    pub pending: Seq<ReqView>,
    pub accepted: Seq<ReqView>,
    pub served: Seq<ReqView>,
}

/// Runs a sequence of queue steps from an empty queue.  An arrival at a full
/// queue is refused; a take at an empty queue does nothing.
pub open spec fn run_queue(ops: Seq<QueueOp>) -> QueueTrace
    decreases ops.len(),
{
    if ops.len() == 0 {
        QueueTrace {
            pending: Seq::empty(),
            accepted: Seq::empty(),
            served: Seq::empty(),
        }
    } else {
        let t = run_queue(ops.drop_last());
        match ops.last() {
            QueueOp::Arrive(r) => {
                if t.pending.len() < QUEUE_CAPACITY {
                    QueueTrace {
                        pending: t.pending.push(r),
                        accepted: t.accepted.push(r),
                        served: t.served,
                    }
                } else {
                    t
                }
            },
            QueueOp::Take => {
                if t.pending.len() > 0 {
                    QueueTrace {
                        pending: t.pending.skip(1),
                        accepted: t.accepted,
                        served: t.served.push(t.pending[0]),
                    }
                } else {
                    t
                }
            },
        }
    }
}

/// FIFO law: however arrivals and takes interleave, the requests handed to
/// roundtrips are exactly the first accepted requests, in arrival order; the
/// rest are still pending, also in arrival order.  In particular, of two
/// accepted requests the earlier one starts its roundtrip first.
pub proof fn lemma_queue_fifo(ops: Seq<QueueOp>)
    ensures
        run_queue(ops).accepted == run_queue(ops).served + run_queue(ops).pending,
    decreases ops.len(),
{
    if ops.len() == 0 {
        assert(run_queue(ops).accepted =~= run_queue(ops).served + run_queue(ops).pending);
    } else {
        let t = run_queue(ops.drop_last());
        let u = run_queue(ops);
        lemma_queue_fifo(ops.drop_last());
        match ops.last() {
            QueueOp::Arrive(r) => {
                if t.pending.len() < QUEUE_CAPACITY {
                    assert(u.accepted =~= u.served + u.pending);
                }
            },
            QueueOp::Take => {
                if t.pending.len() > 0 {
                    assert(u.accepted =~= u.served + u.pending);
                }
            },
        }
    }
}

/// Prefix reading of the FIFO law: the served requests are exactly the
/// oldest accepted ones.
pub proof fn lemma_queue_fifo_prefix(ops: Seq<QueueOp>)
    ensures
        run_queue(ops).served == run_queue(ops).accepted.take(
            run_queue(ops).served.len() as int,
        ),
{
    lemma_queue_fifo(ops);
    let u = run_queue(ops);
    assert(u.served =~= u.accepted.take(u.served.len() as int));
}

/// What the worker does after one roundtrip finished.
#[derive(Debug, Clone, PartialEq, Eq)]
pub enum ServiceStep {
    /// First fault for this request: discard the connection and try once
    /// more on a fresh one.
    Retry,
    /// Hand this reply to the request's reply slot.
    Deliver(IpcResponse),
}

/// Mathematical model of [`ServiceStep`].
pub enum ServiceStepView {
    Retry,
    Deliver(RespView),
}

impl View for ServiceStep {
    type V = ServiceStepView;

    open spec fn view(&self) -> ServiceStepView {
        match self {
            ServiceStep::Retry => ServiceStepView::Retry,
            ServiceStep::Deliver(m) => ServiceStepView::Deliver(m@),
        }
    }
}

/// The reply the worker fabricates when both attempts for a request failed.
pub open spec fn synthetic_error_reply() -> RespView {
    RespView::Error { message: "ipc roundtrip failed after retry".spec_bytes() }
}

/// The worker's policy after one roundtrip: deliver a reply; on a fault,
/// retry once on a fresh connection, then give up with the synthetic error.
pub open spec fn spec_settle(first_attempt: bool, o: OutcomeView) -> ServiceStepView {
    match o {
        OutcomeView::Reply(m) => ServiceStepView::Deliver(m),
        OutcomeView::Fault(..) => {
            if first_attempt {
                ServiceStepView::Retry
            } else {
                ServiceStepView::Deliver(synthetic_error_reply())
            }
        },
    }
}

/// The worker: it owns the connection's health and applies the retry policy.
#[derive(Debug, Clone, Copy, PartialEq, Eq, Structural)]
pub struct Worker {
    pub conn: ConnHealth,
}

impl Worker {
    /// A fresh worker: no connection yet.
    pub fn new() -> (w: Worker)
        ensures
            w.conn == ConnHealth::Absent,
    {
        Worker { conn: ConnHealth::Absent }
    }

    /// Starts a roundtrip for the next request on the current connection.
    pub fn begin_roundtrip(&self, req: &IpcRequest) -> (r: (RoundTrip, Vec<u8>))
        requires
            crate::conn::req_fits(req@),
        ensures
            r.0@ == rt_begin(self.conn),
            r.1@ == spec_frame(crate::wire::spec_encode_req(req@)),
    {
        RoundTrip::start(self.conn, req)
    }

    /// Absorbs one roundtrip's outcome, exactly as [`spec_settle`] and
    /// [`conn_after`] state: the connection survives only a decoded reply.
    pub fn settle(&mut self, first_attempt: bool, outcome: RtOutcome) -> (d: ServiceStep)
        ensures
            final(self).conn == conn_after(outcome@),
            d@ == spec_settle(first_attempt, outcome@),
    {
        match outcome {
            RtOutcome::Reply(m) => {
                self.conn = ConnHealth::Established;
                ServiceStep::Deliver(m)
            },
            RtOutcome::Fault(..) => {
                self.conn = ConnHealth::Absent;
                if first_attempt {
                    ServiceStep::Retry
                } else {
                    ServiceStep::Deliver(
                        IpcResponse::Error {
                            message: "ipc roundtrip failed after retry".as_bytes_vec(),
                        },
                    )
                }
            },
        }
    }
}

} // verus!
