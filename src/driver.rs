use vstd::prelude::*;
use crate::model::{current_view, EfsRequestStatus, StatusView};
use crate::reconciler::next_status;
use crate::wire::{status_patch, status_patch_json};

verus! {

/// Seconds until a request is reconciled again after a completed pass.
pub const REQUEUE_AFTER_SECS: u64 = 20;

/// Seconds until a request is reconciled again after the driver's own failure
/// to read or persist it.
pub const ERROR_REQUEUE_AFTER_SECS: u64 = 60;

/// The status is written only where the candidate differs from what is stored.
pub open spec fn patch_needed(current: Option<StatusView>, candidate: StatusView) -> bool {
    current != Some(candidate)
}

/// What the driver does once the candidate status is known: the patch body to
/// send, if any, and when to reconcile next.
#[derive(Debug, Clone)]
pub struct StatusUpdate {
    pub patch: Option<String>,
    pub requeue_after_secs: u64,
}

/// Compares the candidate status with the stored one; where they differ, the
/// update carries the patch that stores the candidate.
pub fn conclude(current: &Option<EfsRequestStatus>, candidate: &EfsRequestStatus) -> (r:
    StatusUpdate)
    ensures
        (r.patch is Some) == patch_needed(current_view(*current), candidate@),
        r.patch matches Some(p) ==> p@ == status_patch_json(candidate@),
        r.requeue_after_secs == REQUEUE_AFTER_SECS,
{
    let unchanged = match current {
        Some(s) => *s == *candidate,
        None => false,
    };
    let patch = if unchanged {
        None
    } else {
        Some(status_patch(candidate))
    };
    StatusUpdate { patch, requeue_after_secs: REQUEUE_AFTER_SECS }
}

/// The delay before the next reconciliation after the driver failed to read
/// or persist a request.
pub fn error_policy() -> (r: u64)
    ensures
        r == ERROR_REQUEUE_AFTER_SECS,
{
    ERROR_REQUEUE_AFTER_SECS
}

/// The delay before the next reconciliation: the normal one when the pass
/// completed, the error backoff when persisting failed.
pub fn requeue_after(update: &StatusUpdate, persisted: bool) -> (r: u64)
    ensures
        r == if persisted {
            update.requeue_after_secs
        } else {
            ERROR_REQUEUE_AFTER_SECS
        },
{
    if persisted {
        update.requeue_after_secs
    } else {
        error_policy()
    }
}

/// Reconciling a status that is held writes nothing: the driver issues no
/// patch for it, whatever the provider would answer.
pub proof fn lemma_hold_issues_no_patch(current: StatusView, outcome: Result<Seq<char>, Seq<char>>)
    requires
        current.condition is CreatingFileSystem || current.condition is Success
            || current.condition is Failed,
    ensures
        !patch_needed(Some(current), next_status(Some(current), outcome)),
{
}

} // verus!
