//! Laws that hold across the bridge's layers: how faults anywhere in a
//! roundtrip reach the caller as the neutral default, and how the bridge
//! recovers afterwards.

use vstd::prelude::*;

use crate::conn::conn_after;
use crate::conn::rt_begin;
use crate::conn::rt_next;
use crate::conn::rt_wants;
use crate::conn::BridgeError;
use crate::conn::ConnHealth;
use crate::conn::EvView;
use crate::conn::IoStep;
use crate::conn::OutcomeView;
use crate::conn::PhaseView;
use crate::facade::spec_flag_of_reply;
use crate::facade::spec_snapshot_of_reply;
use crate::frame::lemma_frame_len;
use crate::frame::spec_u32_from_be_bytes;
use crate::frame::spec_frame;
use crate::frame::MAX_FRAME_PAYLOAD;
use crate::status::neutral_snapshot;
use crate::wire::lemma_resp_round_trip;
use crate::wire::resp_wf;
use crate::wire::spec_encode_resp;
use crate::wire::RespView;
use crate::worker::spec_settle;
use crate::worker::synthetic_error_reply;
use crate::worker::ServiceStepView;

verus! {

/// While no daemon is reachable, every connection attempt fails, every
/// roundtrip therefore faults, and whatever the two faults were, the worker
/// retries once, then delivers the synthetic error, which the façade turns
/// into the neutral default.  A reply slot left empty (full queue, dead
/// worker, expired deadline) gives the same default.
pub proof fn lemma_no_daemon_neutral_default(o1: OutcomeView, o2: OutcomeView)
    requires
        o1 is Fault,
        o2 is Fault,
    ensures
        rt_next(rt_begin(ConnHealth::Absent), EvView::OpenFailed) == (PhaseView::Done {
            outcome: OutcomeView::Fault(BridgeError::ConnectionUnavailable),
        }),
        spec_settle(true, o1) == ServiceStepView::Retry,
        conn_after(o1) == ConnHealth::Absent,
        spec_settle(false, o2) == ServiceStepView::Deliver(synthetic_error_reply()),
        spec_snapshot_of_reply(Some(synthetic_error_reply())) == neutral_snapshot(),
        spec_flag_of_reply(Some(synthetic_error_reply())) == false,
        spec_snapshot_of_reply(None::<RespView>) == neutral_snapshot(),
        spec_flag_of_reply(None::<RespView>) == false,
{
}

/// An oversized response frame never yields a value: the roundtrip faults
/// while only the length prefix has been read, the connection is discarded,
/// and a call whose retry also failed gets the neutral default.
pub proof fn lemma_oversized_frame_rejected(lenb: Seq<u8>)
    requires
        lenb.len() == 4,
        spec_u32_from_be_bytes(lenb) > MAX_FRAME_PAYLOAD,
    ensures
        rt_next(PhaseView::AwaitingLen, EvView::Received(lenb)) == (PhaseView::Done {
            outcome: OutcomeView::Fault(BridgeError::FrameTooLarge),
        }),
        conn_after(OutcomeView::Fault(BridgeError::FrameTooLarge)) == ConnHealth::Absent,
        spec_settle(false, OutcomeView::Fault(BridgeError::FrameTooLarge))
            == ServiceStepView::Deliver(synthetic_error_reply()),
        spec_snapshot_of_reply(Some(synthetic_error_reply())) == neutral_snapshot(),
{
}

/// A timed-out roundtrip is abandoned wherever it stood: it ends in a
/// protocol-timeout fault and its connection is discarded, so a late reply
/// on that connection can never answer a later request.
pub proof fn lemma_timeout_discards_connection(ph: PhaseView)
    requires
        !(ph is Done),
    ensures
        rt_next(ph, EvView::TimedOut) == (PhaseView::Done {
            outcome: OutcomeView::Fault(BridgeError::ProtocolTimeout),
        }),
        conn_after(OutcomeView::Fault(BridgeError::ProtocolTimeout)) == ConnHealth::Absent,
{
}

/// Reconnection law: any fault leaves the worker without a connection, so
/// the next request's roundtrip opens a fresh one; and once the daemon is
/// reachable and answers within the frame bound, that roundtrip delivers the
/// daemon's reply unchanged.
pub proof fn lemma_reconnect_after_failure(o: OutcomeView, resp: RespView)
    requires
        o is Fault,
        spec_encode_resp(resp).len() <= MAX_FRAME_PAYLOAD,
    ensures
        conn_after(o) == ConnHealth::Absent,
        rt_begin(ConnHealth::Absent) == PhaseView::Opening,
        rt_wants(PhaseView::Opening) == IoStep::Open,
        ({
            let sent = spec_frame(spec_encode_resp(resp));
            let p1 = rt_next(PhaseView::Opening, EvView::Opened);
            let p2 = rt_next(p1, EvView::Sent);
            let p3 = rt_next(p2, EvView::Received(sent.subrange(0, 4)));
            let p4 = rt_next(p3, EvView::Received(sent.skip(4)));
            p4 == (PhaseView::Done { outcome: OutcomeView::Reply(resp) })
        }),
{
    vstd::bytes::lemma_auto_spec_u32_to_from_le_bytes();
    vstd::bytes::lemma_auto_spec_u64_to_from_le_bytes();
    let enc = spec_encode_resp(resp);
    assert(resp_wf(resp)) by {
        match resp {
            RespView::Error { message } => {
                assert(enc.len() == 12 + message.len());
            },
            _ => {},
        }
    }
    lemma_frame_len(enc);
    lemma_resp_round_trip(resp);
}

} // verus!
