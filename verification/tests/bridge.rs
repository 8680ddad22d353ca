//! End-to-end bridge behavior over scripted I/O: neutral defaults while the
//! daemon is absent, faithful delivery of real replies, oversized-frame and
//! timeout handling, reconnection, and the bounded FIFO queue.

use gdrivexp_bridge::conn::{
    BridgeError, ConnHealth, IoEvent, IoStep, RoundTrip, RtOutcome, RtPhase,
};
use gdrivexp_bridge::facade::{
    flag_of_reply, ipc_query_status, set_local_online_request, set_online_only_request,
    snapshot_of_reply, status_request,
};
use gdrivexp_bridge::frame::u32_to_be;
use gdrivexp_bridge::status::{FileAvailability, FileStatusData, SyncStatus};
use gdrivexp_bridge::wire::{encode_response, IpcRequest, IpcResponse};
use gdrivexp_bridge::worker::{RequestQueue, ServiceStep, Worker, QUEUE_CAPACITY};

fn outcome_of(rt: RoundTrip) -> RtOutcome {
    match rt.phase {
        RtPhase::Done { outcome } => outcome,
        other => panic!("roundtrip still in {:?}", other),
    }
}

/// Drives one roundtrip in which the daemon accepts the connection, reads
/// the request, and answers with `resp`.
fn roundtrip_with_reply(worker: &Worker, req: &IpcRequest, resp: &IpcResponse) -> RtOutcome {
    let (mut rt, _frame) = worker.begin_roundtrip(req);
    if rt.wants() == IoStep::Open {
        rt.step(IoEvent::Opened);
    }
    assert_eq!(rt.wants(), IoStep::Send);
    let step = rt.step(IoEvent::Sent);
    assert_eq!(step, IoStep::RecvLen);
    let payload = encode_response(resp);
    let step = rt.step(IoEvent::Received(u32_to_be(payload.len() as u32)));
    assert_eq!(step, IoStep::RecvBody { len: payload.len() as u32 });
    let step = rt.step(IoEvent::Received(payload));
    assert_eq!(step, IoStep::Stop);
    outcome_of(rt)
}

#[test]
fn daemon_absent_returns_neutral_default() {
    // Scenario: no daemon listens, so every connection attempt fails; the
    // worker retries once and then delivers the synthetic error, which the
    // caller sees as the neutral default.
    let mut worker = Worker::new();
    assert_eq!(worker.conn, ConnHealth::Absent);
    let req = status_request("file:///home/u/a.txt");

    let (mut rt, _frame) = worker.begin_roundtrip(&req);
    assert_eq!(rt.wants(), IoStep::Open);
    assert_eq!(rt.step(IoEvent::OpenFailed), IoStep::Stop);
    let outcome = outcome_of(rt);
    assert_eq!(outcome, RtOutcome::Fault(BridgeError::ConnectionUnavailable));

    assert_eq!(worker.settle(true, outcome), ServiceStep::Retry);
    assert_eq!(worker.conn, ConnHealth::Absent);

    let (mut rt, _frame) = worker.begin_roundtrip(&req);
    assert_eq!(rt.step(IoEvent::OpenFailed), IoStep::Stop);
    let delivered = match worker.settle(false, outcome_of(rt)) {
        ServiceStep::Deliver(resp) => resp,
        ServiceStep::Retry => panic!("second attempt must not retry"),
    };
    assert!(matches!(delivered, IpcResponse::Error { .. }));

    let snapshot = snapshot_of_reply(Some(delivered));
    assert_eq!(
        snapshot,
        FileStatusData {
            status: SyncStatus::Unknown,
            availability: FileAvailability::NotTracked,
            is_shared: false,
        }
    );
    assert_eq!(ipc_query_status(Some(snapshot)), Ok(SyncStatus::Unknown));
}

#[test]
fn daemon_reply_reaches_caller_unchanged() {
    // Scenario: the daemon answers a status query with a full snapshot; the
    // caller gets exactly that snapshot.
    let mut worker = Worker::new();
    let req = status_request("file:///home/u/a.txt");
    let data = FileStatusData {
        status: SyncStatus::Synced,
        availability: FileAvailability::LocalOnline,
        is_shared: true,
    };
    let outcome = roundtrip_with_reply(&worker, &req, &IpcResponse::ExtendedStatus(data));
    let delivered = match worker.settle(true, outcome) {
        ServiceStep::Deliver(resp) => resp,
        ServiceStep::Retry => panic!("a reply must be delivered, not retried"),
    };
    assert_eq!(worker.conn, ConnHealth::Established);
    assert_eq!(snapshot_of_reply(Some(delivered)), data);
    assert_eq!(ipc_query_status(Some(data)), Ok(SyncStatus::Synced));
}

#[test]
fn oversized_frame_rejected_and_call_defaults() {
    // A response frame declaring more than 4096 payload bytes faults the
    // roundtrip before any payload is read.
    let mut worker = Worker::new();
    let req = status_request("file:///home/u/a.txt");
    let (mut rt, _frame) = worker.begin_roundtrip(&req);
    rt.step(IoEvent::Opened);
    rt.step(IoEvent::Sent);
    assert_eq!(rt.step(IoEvent::Received(u32_to_be(4097))), IoStep::Stop);
    let outcome = outcome_of(rt);
    assert_eq!(outcome, RtOutcome::Fault(BridgeError::FrameTooLarge));

    // The connection is discarded; a failed retry ends in the default.
    assert_eq!(worker.settle(true, outcome.clone()), ServiceStep::Retry);
    assert_eq!(worker.conn, ConnHealth::Absent);
    let delivered = match worker.settle(false, outcome) {
        ServiceStep::Deliver(resp) => resp,
        ServiceStep::Retry => panic!("second attempt must not retry"),
    };
    assert_eq!(
        snapshot_of_reply(Some(delivered)),
        FileStatusData {
            status: SyncStatus::Unknown,
            availability: FileAvailability::NotTracked,
            is_shared: false,
        }
    );
}

#[test]
fn boundary_frame_length_is_accepted() {
    // Exactly 4096 declared bytes is still within the protocol.
    let worker = Worker::new();
    let req = status_request("file:///x");
    let (mut rt, _frame) = worker.begin_roundtrip(&req);
    rt.step(IoEvent::Opened);
    rt.step(IoEvent::Sent);
    assert_eq!(rt.step(IoEvent::Received(u32_to_be(4096))), IoStep::RecvBody { len: 4096 });
}

#[test]
fn timeout_abandons_roundtrip_and_next_call_reconnects() {
    // Scenario: the daemon accepts the connection but never replies.  The
    // protocol timeout faults the roundtrip, the connection is discarded,
    // and the next call opens a fresh connection and succeeds.
    let mut worker = Worker::new();
    let req = status_request("file:///home/u/a.txt");

    let (mut rt, _frame) = worker.begin_roundtrip(&req);
    rt.step(IoEvent::Opened);
    rt.step(IoEvent::Sent);
    assert_eq!(rt.step(IoEvent::TimedOut), IoStep::Stop);
    let outcome = outcome_of(rt);
    assert_eq!(outcome, RtOutcome::Fault(BridgeError::ProtocolTimeout));
    assert_eq!(worker.settle(true, outcome.clone()), ServiceStep::Retry);
    assert_eq!(worker.conn, ConnHealth::Absent);
    let delivered = match worker.settle(false, outcome) {
        ServiceStep::Deliver(resp) => resp,
        ServiceStep::Retry => panic!("second attempt must not retry"),
    };
    assert_eq!(
        snapshot_of_reply(Some(delivered)).status,
        SyncStatus::Unknown
    );

    // The daemon comes back: the very next call reconnects and succeeds.
    let (rt, _frame) = worker.begin_roundtrip(&req);
    assert_eq!(rt.wants(), IoStep::Open);
    let outcome = roundtrip_with_reply(&worker, &req, &IpcResponse::Pong);
    assert_eq!(outcome, RtOutcome::Reply(IpcResponse::Pong));
    worker.settle(true, outcome);
    assert_eq!(worker.conn, ConnHealth::Established);
}

#[test]
fn write_failure_faults_roundtrip() {
    let worker = Worker::new();
    let req = set_online_only_request("file:///home/u/a.txt");
    let (mut rt, _frame) = worker.begin_roundtrip(&req);
    rt.step(IoEvent::Opened);
    assert_eq!(rt.step(IoEvent::Failed), IoStep::Stop);
    assert_eq!(outcome_of(rt), RtOutcome::Fault(BridgeError::IoFailure));
}

#[test]
fn malformed_payload_faults_roundtrip() {
    let worker = Worker::new();
    let req = status_request("file:///home/u/a.txt");
    let (mut rt, _frame) = worker.begin_roundtrip(&req);
    rt.step(IoEvent::Opened);
    rt.step(IoEvent::Sent);
    rt.step(IoEvent::Received(u32_to_be(3)));
    assert_eq!(rt.step(IoEvent::Received(vec![9, 9, 9])), IoStep::Stop);
    assert_eq!(outcome_of(rt), RtOutcome::Fault(BridgeError::Malformed));
}

#[test]
fn established_connection_skips_reconnect() {
    let mut worker = Worker::new();
    let req = status_request("file:///home/u/a.txt");
    let outcome = roundtrip_with_reply(&worker, &req, &IpcResponse::Pong);
    worker.settle(true, outcome);
    assert_eq!(worker.conn, ConnHealth::Established);
    let (rt, _frame) = worker.begin_roundtrip(&req);
    assert_eq!(rt.wants(), IoStep::Send);
}

#[test]
fn mutating_call_returns_true_only_on_success() {
    let worker = Worker::new();
    let req = set_local_online_request("file:///home/u/a.txt");
    let outcome = roundtrip_with_reply(&worker, &req, &IpcResponse::Success);
    match outcome {
        RtOutcome::Reply(resp) => assert!(flag_of_reply(Some(resp))),
        RtOutcome::Fault(e) => panic!("unexpected fault {:?}", e),
    }
    assert!(!flag_of_reply(Some(IpcResponse::Pong)));
    assert!(!flag_of_reply(Some(IpcResponse::Error { message: b"x".to_vec() })));
    assert!(!flag_of_reply(None));
}

#[test]
fn empty_reply_slot_gives_defaults() {
    assert_eq!(
        snapshot_of_reply(None),
        FileStatusData {
            status: SyncStatus::Unknown,
            availability: FileAvailability::NotTracked,
            is_shared: false,
        }
    );
    assert_eq!(ipc_query_status(None), Ok(SyncStatus::Unknown));
}

#[test]
fn queue_serves_in_arrival_order() {
    let mut q = RequestQueue::new();
    let r1 = IpcRequest::GetFileStatus { path: b"/1".to_vec() };
    let r2 = IpcRequest::GetFileStatus { path: b"/2".to_vec() };
    assert!(q.enqueue(r1.clone()));
    assert!(q.enqueue(r2.clone()));
    assert_eq!(q.dequeue(), Some(r1));
    assert_eq!(q.dequeue(), Some(r2));
    assert_eq!(q.dequeue(), None);
}

#[test]
fn queue_keeps_order_under_interleaving() {
    let mut q = RequestQueue::new();
    let a = IpcRequest::GetFileStatus { path: b"/a".to_vec() };
    let b = IpcRequest::SetOnlineOnly { path: b"/b".to_vec() };
    let c = IpcRequest::SetLocalOnline { path: b"/c".to_vec() };
    assert!(q.enqueue(a.clone()));
    assert!(q.enqueue(b.clone()));
    assert_eq!(q.dequeue(), Some(a));
    assert!(q.enqueue(c.clone()));
    assert_eq!(q.dequeue(), Some(b));
    assert_eq!(q.dequeue(), Some(c));
}

#[test]
fn stale_connection_recovers_within_one_call() {
    // The daemon restarted: the worker still believes its connection is
    // alive, the write fails, and the retry on a fresh connection succeeds
    // within the same call.
    let mut worker = Worker::new();
    let req = status_request("file:///home/u/a.txt");
    let outcome = roundtrip_with_reply(&worker, &req, &IpcResponse::Pong);
    worker.settle(true, outcome);
    assert_eq!(worker.conn, ConnHealth::Established);

    let (mut rt, _frame) = worker.begin_roundtrip(&req);
    assert_eq!(rt.wants(), IoStep::Send);
    rt.step(IoEvent::Failed);
    assert_eq!(worker.settle(true, outcome_of(rt)), ServiceStep::Retry);
    assert_eq!(worker.conn, ConnHealth::Absent);

    let data = FileStatusData {
        status: SyncStatus::CloudOnly,
        availability: FileAvailability::OnlineOnly,
        is_shared: false,
    };
    let outcome = roundtrip_with_reply(&worker, &req, &IpcResponse::ExtendedStatus(data));
    match worker.settle(false, outcome) {
        ServiceStep::Deliver(resp) => assert_eq!(snapshot_of_reply(Some(resp)), data),
        ServiceStep::Retry => panic!("second attempt must not retry"),
    }
}

#[test]
fn full_queue_refuses_without_blocking() {
    let mut q = RequestQueue::new();
    for _ in 0..QUEUE_CAPACITY {
        assert!(q.enqueue(IpcRequest::Ping));
    }
    assert_eq!(q.len(), QUEUE_CAPACITY);
    assert!(!q.enqueue(IpcRequest::Ping));
    assert_eq!(q.len(), QUEUE_CAPACITY);
    assert_eq!(q.dequeue(), Some(IpcRequest::Ping));
    assert!(q.enqueue(IpcRequest::Ping));
}
