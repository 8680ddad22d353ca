//! The per-request roundtrip state machine of the connection manager.
//!
//! The worker owns at most one live connection.  For each request it runs one
//! roundtrip: connect if no connection exists, send one framed request, read
//! one framed response.  The machine here decides every step; the surrounding
//! process glue only performs the I/O it asks for and reports what happened.
//! Any fault ends the roundtrip and discards the connection.

use vstd::prelude::*;

use crate::frame::frame_payload;
use crate::frame::spec_frame;
use crate::frame::spec_u32_from_be_bytes;
use crate::frame::u32_from_be;
use crate::frame::MAX_FRAME_PAYLOAD;
use crate::wire::decode_response;
use crate::wire::encode_request;
use crate::wire::spec_decode_resp;
use crate::wire::spec_encode_req;
use crate::wire::IpcRequest;
use crate::wire::IpcResponse;
use crate::wire::ReqView;
use crate::wire::RespView;

verus! {

/// Everything that can go wrong inside the bridge.  Every one of these is
/// absorbed before it reaches a caller: the façade turns them all into the
/// neutral default.
#[derive(Debug, Clone, Copy, PartialEq, Eq, Structural)]
pub enum BridgeError {
    /// No connection could be established: the daemon is absent.
    ConnectionUnavailable,
    /// A write or read on the connection failed, or it reached end of stream.
    IoFailure,
    /// A response frame declared a payload longer than [`MAX_FRAME_PAYLOAD`].
    FrameTooLarge,
    /// A response payload did not parse as any known message.
    Malformed,
    /// The roundtrip did not finish within the worker's protocol timeout.
    ProtocolTimeout,
    /// The caller stopped waiting before the worker delivered a result.
    CallerTimeout,
}

/// Whether the worker currently holds a live connection.
#[derive(Debug, Clone, Copy, PartialEq, Eq, Structural)]
pub enum ConnHealth {
    Absent,
    Established,
}

/// How one roundtrip ended: a decoded reply, or a fault.
#[derive(Debug, Clone, PartialEq, Eq)]
pub enum RtOutcome {
    Reply(IpcResponse),
    Fault(BridgeError),
}

/// Mathematical model of [`RtOutcome`].
pub enum OutcomeView {
    Reply(RespView),
    Fault(BridgeError),
}

impl View for RtOutcome {
    type V = OutcomeView;

    open spec fn view(&self) -> OutcomeView {
        match self {
            RtOutcome::Reply(m) => OutcomeView::Reply(m@),
            RtOutcome::Fault(e) => OutcomeView::Fault(*e),
        }
    }
}

/// Where a roundtrip stands.
#[derive(Debug, Clone, PartialEq, Eq)]
pub enum RtPhase {
    /// Waiting for the connection attempt to finish.
    Opening,
    /// Waiting for the request frame to be written.
    Sending,
    /// Waiting for the 4-byte response length prefix.
    AwaitingLen,
    /// Waiting for the declared number of payload bytes.
    AwaitingBody { len: u32 },
    /// The roundtrip is over.
    Done { outcome: RtOutcome },
}

/// Mathematical model of [`RtPhase`].
pub enum PhaseView {
    Opening,
    Sending,
    AwaitingLen,
    AwaitingBody { len: u32 },
    Done { outcome: OutcomeView },
}

impl View for RtPhase {
    type V = PhaseView;

    open spec fn view(&self) -> PhaseView {
        match self {
            RtPhase::Opening => PhaseView::Opening,
            RtPhase::Sending => PhaseView::Sending,
            RtPhase::AwaitingLen => PhaseView::AwaitingLen,
            RtPhase::AwaitingBody { len } => PhaseView::AwaitingBody { len: *len },
            RtPhase::Done { outcome } => PhaseView::Done { outcome: outcome@ },
        }
    }
}

/// What the surrounding I/O layer reports back to the machine.
#[derive(Debug, Clone, PartialEq, Eq)]
pub enum IoEvent {
    /// The connection attempt succeeded.
    Opened,
    /// The connection attempt failed.
    OpenFailed,
    /// The requested write completed.
    Sent,
    /// The requested read completed with exactly these bytes.
    Received(Vec<u8>),
    /// The requested write or read failed, or the stream ended.
    Failed,
    /// The protocol timeout fired while the requested step was pending.
    TimedOut,
}

/// Mathematical model of [`IoEvent`].
pub enum EvView {
    Opened,
    OpenFailed,
    Sent,
    Received(Seq<u8>),
    Failed,
    TimedOut,
}

impl View for IoEvent {
    type V = EvView;

    open spec fn view(&self) -> EvView {
        match self {
            IoEvent::Opened => EvView::Opened,
            IoEvent::OpenFailed => EvView::OpenFailed,
            IoEvent::Sent => EvView::Sent,
            IoEvent::Received(b) => EvView::Received(b@),
            IoEvent::Failed => EvView::Failed,
            IoEvent::TimedOut => EvView::TimedOut,
        }
    }
}

/// What the machine asks the I/O layer to do next.
#[derive(Debug, Clone, Copy, PartialEq, Eq, Structural)]
pub enum IoStep {
    /// Connect to the endpoint.
    Open,
    /// Write the request frame.
    Send,
    /// Read exactly 4 bytes: the response length prefix.
    RecvLen,
    /// Read exactly `len` payload bytes.
    RecvBody { len: u32 },
    /// Nothing is left to do: the roundtrip is done.
    Stop,
}

/// The phase a roundtrip starts in: connect first if no connection exists.
pub open spec fn rt_begin(conn: ConnHealth) -> PhaseView {
    match conn {
        ConnHealth::Absent => PhaseView::Opening,
        ConnHealth::Established => PhaseView::Sending,
    }
}

/// Which events can answer which phase.  The I/O layer reports the outcome
/// of exactly the step the machine asked for, so a read answers with the
/// exact number of bytes it was asked to read.
pub open spec fn ev_fits(ph: PhaseView, ev: EvView) -> bool {
    match ph {
        PhaseView::Opening => ev is Opened || ev is OpenFailed || ev is TimedOut,
        PhaseView::Sending => ev is Sent || ev is Failed || ev is TimedOut,
        PhaseView::AwaitingLen => (ev matches EvView::Received(b) && b.len() == 4) || ev is Failed
            || ev is TimedOut,
        PhaseView::AwaitingBody { len } => (ev matches EvView::Received(b) && b.len() == len)
            || ev is Failed || ev is TimedOut,
        PhaseView::Done { .. } => false,
    }
}

/// The transition relation of one roundtrip.  On an event that does not
/// answer the phase the machine stays put.
pub open spec fn rt_next(ph: PhaseView, ev: EvView) -> PhaseView {
    match ph {
        PhaseView::Opening => match ev {
            EvView::Opened => PhaseView::Sending,
            EvView::OpenFailed => PhaseView::Done {
                outcome: OutcomeView::Fault(BridgeError::ConnectionUnavailable),
            },
            EvView::TimedOut => PhaseView::Done {
                outcome: OutcomeView::Fault(BridgeError::ProtocolTimeout),
            },
            _ => ph,
        },
        PhaseView::Sending => match ev {
            EvView::Sent => PhaseView::AwaitingLen,
            EvView::Failed => PhaseView::Done {
                outcome: OutcomeView::Fault(BridgeError::IoFailure),
            },
            EvView::TimedOut => PhaseView::Done {
                outcome: OutcomeView::Fault(BridgeError::ProtocolTimeout),
            },
            _ => ph,
        },
        PhaseView::AwaitingLen => match ev {
            EvView::Received(b) => {
                let n = spec_u32_from_be_bytes(b);
                if n > MAX_FRAME_PAYLOAD {
                    PhaseView::Done { outcome: OutcomeView::Fault(BridgeError::FrameTooLarge) }
                } else {
                    PhaseView::AwaitingBody { len: n }
                }
            },
            EvView::Failed => PhaseView::Done {
                outcome: OutcomeView::Fault(BridgeError::IoFailure),
            },
            EvView::TimedOut => PhaseView::Done {
                outcome: OutcomeView::Fault(BridgeError::ProtocolTimeout),
            },
            _ => ph,
        },
        PhaseView::AwaitingBody { .. } => match ev {
            EvView::Received(b) => match spec_decode_resp(b) {
                Some(m) => PhaseView::Done { outcome: OutcomeView::Reply(m) },
                None => PhaseView::Done { outcome: OutcomeView::Fault(BridgeError::Malformed) },
            },
            EvView::Failed => PhaseView::Done {
                outcome: OutcomeView::Fault(BridgeError::IoFailure),
            },
            EvView::TimedOut => PhaseView::Done {
                outcome: OutcomeView::Fault(BridgeError::ProtocolTimeout),
            },
            _ => ph,
        },
        PhaseView::Done { .. } => ph,
    }
}

/// The I/O step each phase waits on.
pub open spec fn rt_wants(ph: PhaseView) -> IoStep {
    match ph {
        PhaseView::Opening => IoStep::Open,
        PhaseView::Sending => IoStep::Send,
        PhaseView::AwaitingLen => IoStep::RecvLen,
        PhaseView::AwaitingBody { len } => IoStep::RecvBody { len },
        PhaseView::Done { .. } => IoStep::Stop,
    }
}

/// Whether the connection survives a roundtrip: only a decoded reply leaves
/// it alive; every fault discards it.
pub open spec fn conn_after(o: OutcomeView) -> ConnHealth {
    match o {
        OutcomeView::Reply(..) => ConnHealth::Established,
        OutcomeView::Fault(..) => ConnHealth::Absent,
    }
}

/// A request whose encoding fits comfortably under the frame's 32-bit
/// length prefix.
pub open spec fn req_fits(m: ReqView) -> bool {
    match m {
        ReqView::GetFileStatus { path } => path.len() <= 0xffff0000,
        ReqView::Ping => true,
        ReqView::SetOnlineOnly { path } => path.len() <= 0xffff0000,
        ReqView::SetLocalOnline { path } => path.len() <= 0xffff0000,
        ReqView::GetFileAvailability { path } => path.len() <= 0xffff0000,
    }
}

/// Checks [`req_fits`] in executable code.
pub fn request_fits(m: &IpcRequest) -> (r: bool)
    ensures
        r == req_fits(m@),
{
    match m {
        IpcRequest::GetFileStatus { path } => path.len() <= 0xffff0000,
        IpcRequest::Ping => true,
        IpcRequest::SetOnlineOnly { path } => path.len() <= 0xffff0000,
        IpcRequest::SetLocalOnline { path } => path.len() <= 0xffff0000,
        IpcRequest::GetFileAvailability { path } => path.len() <= 0xffff0000,
    }
}

/// One roundtrip in progress.
#[derive(Debug, Clone, PartialEq, Eq)]
pub struct RoundTrip {
    pub phase: RtPhase,
}

impl View for RoundTrip {
    type V = PhaseView;

    open spec fn view(&self) -> PhaseView {
        self.phase@
    }
}

impl RoundTrip {
    /// Starts a roundtrip for one request: encodes and frames it, and decides
    /// the first step from the connection's health.
    pub fn start(conn: ConnHealth, req: &IpcRequest) -> (r: (RoundTrip, Vec<u8>))
        requires
            req_fits(req@),
        ensures
            r.0@ == rt_begin(conn),
            r.1@ == spec_frame(spec_encode_req(req@)),
    {
        let payload = encode_request(req);
        proof {
            vstd::bytes::lemma_auto_spec_u32_to_from_le_bytes();
            vstd::bytes::lemma_auto_spec_u64_to_from_le_bytes();
        }
        let framed = frame_payload(&payload);
        let phase = match conn {
            ConnHealth::Absent => RtPhase::Opening,
            ConnHealth::Established => RtPhase::Sending,
        };
        (RoundTrip { phase }, framed)
    }

    /// The step the machine is waiting on.
    pub fn wants(&self) -> (a: IoStep)
        ensures
            a == rt_wants(self@),
    {
        match &self.phase {
            RtPhase::Opening => IoStep::Open,
            RtPhase::Sending => IoStep::Send,
            RtPhase::AwaitingLen => IoStep::RecvLen,
            RtPhase::AwaitingBody { len } => IoStep::RecvBody { len: *len },
            RtPhase::Done { .. } => IoStep::Stop,
        }
    }

    /// Feeds the machine the outcome of the step it asked for and returns the
    /// next step, exactly as [`rt_next`] and [`rt_wants`] state.
    pub fn step(&mut self, ev: IoEvent) -> (a: IoStep)
        requires
            ev_fits(old(self)@, ev@),
        ensures
            final(self)@ == rt_next(old(self)@, ev@),
            a == rt_wants(final(self)@),
    {
        let next: RtPhase = match &self.phase {
            RtPhase::Opening => match ev {
                IoEvent::Opened => RtPhase::Sending,
                IoEvent::OpenFailed => RtPhase::Done {
                    outcome: RtOutcome::Fault(BridgeError::ConnectionUnavailable),
                },
                IoEvent::TimedOut => RtPhase::Done {
                    outcome: RtOutcome::Fault(BridgeError::ProtocolTimeout),
                },
                _ => RtPhase::Opening,
            },
            RtPhase::Sending => match ev {
                IoEvent::Sent => RtPhase::AwaitingLen,
                IoEvent::Failed => RtPhase::Done {
                    outcome: RtOutcome::Fault(BridgeError::IoFailure),
                },
                IoEvent::TimedOut => RtPhase::Done {
                    outcome: RtOutcome::Fault(BridgeError::ProtocolTimeout),
                },
                _ => RtPhase::Sending,
            },
            RtPhase::AwaitingLen => match ev {
                IoEvent::Received(b) => {
                    let n = u32_from_be(b.as_slice());
                    if n > MAX_FRAME_PAYLOAD {
                        RtPhase::Done { outcome: RtOutcome::Fault(BridgeError::FrameTooLarge) }
                    } else {
                        RtPhase::AwaitingBody { len: n }
                    }
                },
                IoEvent::Failed => RtPhase::Done {
                    outcome: RtOutcome::Fault(BridgeError::IoFailure),
                },
                IoEvent::TimedOut => RtPhase::Done {
                    outcome: RtOutcome::Fault(BridgeError::ProtocolTimeout),
                },
                _ => RtPhase::AwaitingLen,
            },
            RtPhase::AwaitingBody { .. } => match ev {
                IoEvent::Received(b) => match decode_response(b.as_slice()) {
                    Some(m) => RtPhase::Done { outcome: RtOutcome::Reply(m) },
                    None => RtPhase::Done { outcome: RtOutcome::Fault(BridgeError::Malformed) },
                },
                IoEvent::Failed => RtPhase::Done {
                    outcome: RtOutcome::Fault(BridgeError::IoFailure),
                },
                IoEvent::TimedOut => RtPhase::Done {
                    outcome: RtOutcome::Fault(BridgeError::ProtocolTimeout),
                },
                _ => RtPhase::Done { outcome: RtOutcome::Fault(BridgeError::Malformed) },
            },
            RtPhase::Done { .. } => {
                proof {
                    assert(false);
                }
                RtPhase::Opening
            },
        };
        self.phase = next;
        self.wants()
    }
}

} // verus!
