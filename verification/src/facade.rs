//! The public query façade: builds requests and absorbs every failure into a
//! neutral default, so callers need no failure handling of their own.
//!
//! The surrounding process glue enqueues `{request, reply slot}` pairs and
//! waits on the slot with the caller's own deadline; the functions here
//! decide what the caller sees.  A reply of `None` stands for every way the
//! wait can come back empty: the queue was full, the worker is gone, or the
//! deadline expired first.

use vstd::prelude::*;
use vstd::string::StrSliceExecFns;
use vstd::string::StringSliceAdditionalSpecFns;

use crate::status::neutral_snapshot;
use crate::status::FileStatusData;
use crate::status::SyncStatus;
use crate::wire::IpcRequest;
use crate::wire::IpcResponse;
use crate::wire::ReqView;
use crate::wire::RespView;

verus! {

/// The request that asks for a file's extended status.  The file is named by
/// its full URI, sent as UTF-8 bytes.
pub fn status_request(uri: &str) -> (r: IpcRequest)
    ensures
        r@ == (ReqView::GetFileStatus { path: uri.spec_bytes() }),
{
    IpcRequest::GetFileStatus { path: uri.as_bytes_vec() }
}

/// The request that asks the daemon to keep the file only online.
pub fn set_online_only_request(uri: &str) -> (r: IpcRequest)
    ensures
        r@ == (ReqView::SetOnlineOnly { path: uri.spec_bytes() }),
{
    IpcRequest::SetOnlineOnly { path: uri.as_bytes_vec() }
}

/// The request that asks the daemon to keep a local copy of the file.
pub fn set_local_online_request(uri: &str) -> (r: IpcRequest)
    ensures
        r@ == (ReqView::SetLocalOnline { path: uri.spec_bytes() }),
{
    IpcRequest::SetLocalOnline { path: uri.as_bytes_vec() }
}

/// The snapshot a status query returns for a given reply: the daemon's
/// snapshot if it sent one, the neutral default for everything else.
pub open spec fn spec_snapshot_of_reply(r: Option<RespView>) -> FileStatusData {
    match r {
        Some(RespView::ExtendedStatus(d)) => d,
        _ => neutral_snapshot(),
    }
}

/// Maps the reply of a status query to what the caller sees, exactly as
/// [`spec_snapshot_of_reply`] states.  Only a real `ExtendedStatus` reply
/// reaches the caller; every fault, timeout, and unexpected reply becomes
/// the neutral default.
pub fn snapshot_of_reply(reply: Option<IpcResponse>) -> (r: FileStatusData)
    ensures
        reply matches Some(m) ==> r == spec_snapshot_of_reply(Some(m@)),
        reply is None ==> r == neutral_snapshot(),
{
    match reply {
        Some(IpcResponse::ExtendedStatus(d)) => d,
        _ => FileStatusData::neutral(),
    }
}

/// The boolean a mutating call returns for a given reply: `true` exactly on
/// the daemon's `Success`.
pub open spec fn spec_flag_of_reply(r: Option<RespView>) -> bool {
    match r {
        Some(RespView::Success) => true,
        _ => false,
    }
}

/// Maps the reply of a mutating call to what the caller sees, exactly as
/// [`spec_flag_of_reply`] states.
pub fn flag_of_reply(reply: Option<IpcResponse>) -> (r: bool)
    ensures
        reply matches Some(m) ==> r == spec_flag_of_reply(Some(m@)),
        reply is None ==> r == false,
{
    match reply {
        Some(IpcResponse::Success) => true,
        _ => false,
    }
}

/// The sync state a plain status query reports: the snapshot's state, or
/// `Unknown` when no snapshot arrived in time.
pub open spec fn spec_query_status(reply: Option<FileStatusData>) -> SyncStatus {
    match reply {
        Some(d) => d.status,
        None => SyncStatus::Unknown,
    }
}

/// The public status query, given what the worker delivered to the reply
/// slot within the caller's deadline.  It never fails: every outcome maps to
/// a sync state, with `Unknown` standing in whenever no snapshot arrived.
pub fn ipc_query_status(reply: Option<FileStatusData>) -> (r: Result<SyncStatus, ()>)
    ensures
        r == Result::<SyncStatus, ()>::Ok(spec_query_status(reply)),
{
    match reply {
        Some(d) => Ok(d.status),
        None => Ok(SyncStatus::Unknown),
    }
}

} // verus!
