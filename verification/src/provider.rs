//! What the file-manager host should show for one file: which emblems, and
//! how the update operation ends.

use vstd::prelude::*;

use crate::status::FileStatusData;
use crate::status::SyncStatus;
use crate::uri::is_file_uri;
use crate::uri::spec_is_file_uri;

verus! {

/// How an info-update operation reports back to the host.
#[derive(Debug, Clone, Copy, PartialEq, Eq, Structural)]
pub enum NautilusOperationResult {
    Complete,
    Failed,
    InProgress,
}

/// The emblem a sync state shows, if any.
pub open spec fn spec_status_emblem(s: SyncStatus) -> Option<Seq<char>> {
    match s {
        SyncStatus::Synced => Some("emblem-gdrivexp-synced"@),
        SyncStatus::CloudOnly => Some("emblem-gdrivexp-cloud"@),
        SyncStatus::LocalOnly => Some("emblem-gdrivexp-local"@),
        SyncStatus::Error => Some("emblem-gdrivexp-error"@),
        SyncStatus::Unknown => None,
    }
}

/// Every emblem a snapshot shows, in order: the shared emblem first, so the
/// status emblem, added last, ends up drawn on top.
pub open spec fn spec_emblems(d: FileStatusData) -> Seq<Seq<char>> {
    (if d.is_shared {
        seq!["emblem-shared"@]
    } else {
        Seq::<Seq<char>>::empty()
    }) + (match spec_status_emblem(d.status) {
        Some(e) => seq![e],
        None => Seq::<Seq<char>>::empty(),
    })
}

/// The emblems to add for one snapshot, exactly as [`spec_emblems`] states.
pub fn emblems_for(d: &FileStatusData) -> (r: Vec<&'static str>)
    ensures
        r@.map_values(|e: &str| e@) == spec_emblems(*d),
{
    let mut r: Vec<&'static str> = Vec::new();
    if d.is_shared {
        r.push("emblem-shared");
    }
    match d.status {
        SyncStatus::Synced => r.push("emblem-gdrivexp-synced"),
        SyncStatus::CloudOnly => r.push("emblem-gdrivexp-cloud"),
        SyncStatus::LocalOnly => r.push("emblem-gdrivexp-local"),
        SyncStatus::Error => r.push("emblem-gdrivexp-error"),
        SyncStatus::Unknown => (),
    }
    proof {
        assert(r@.map_values(|e: &str| e@) =~= spec_emblems(*d));
    }
    r
}

/// Decides one info update: no emblems for anything outside the local
/// `file://` space, else exactly the snapshot's emblems.  The operation
/// always completes synchronously.
pub fn plan_file_update(uri: &str, d: &FileStatusData) -> (r: (
    Vec<&'static str>,
    NautilusOperationResult,
))
    ensures
        spec_is_file_uri(uri@) ==> r.0@.map_values(|e: &str| e@) == spec_emblems(*d),
        !spec_is_file_uri(uri@) ==> r.0@.len() == 0,
        r.1 == NautilusOperationResult::Complete,
{
    if !is_file_uri(uri) {
        (Vec::new(), NautilusOperationResult::Complete)
    } else {
        (emblems_for(d), NautilusOperationResult::Complete)
    }
}

} // verus!
