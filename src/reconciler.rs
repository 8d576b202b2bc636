use vstd::prelude::*;
use crate::model::{
    current_view, default_status, EfsRequestCondition, EfsRequestSpec, EfsRequestStatus,
    PhaseView, StatusView,
};
use crate::provider::{
    create_file_system_call, created_status, request_tags, tags_view, CreateFileSystemCall,
    CREATION_TOKEN,
};

verus! {

/// What one reconciliation does before the driver persists anything.
#[derive(Debug, Clone)]
pub enum ReconcileStep {
    /// The candidate status is known without any outside call.
    Settled { status: EfsRequestStatus },
    /// The provider is to be asked to create a file system; the candidate
    /// status is what `status_after_create` makes of its answer.
    Provision { call: CreateFileSystemCall },
}

/// A request whose status is present and initialised asks for a creation call.
pub open spec fn needs_provision(current: Option<StatusView>) -> bool {
    current matches Some(s) && s.condition is Initialised
}

/// The candidate status where no creation call is made: a missing status
/// becomes the default one, mount-target creation falls back to the default
/// status, and every other phase is held as it is.
pub open spec fn held_status(current: Option<StatusView>) -> StatusView {
    match current {
        None => default_status(),
        Some(s) => if s.condition is CreatingMountTargets {
            default_status()
        } else {
            s
        },
    }
}

/// The whole reconciler: the candidate status for the current one, given what
/// the provider answers should it be called.
pub open spec fn next_status(
    current: Option<StatusView>,
    outcome: Result<Seq<char>, Seq<char>>,
) -> StatusView {
    if needs_provision(current) {
        created_status(outcome)
    } else {
        held_status(current)
    }
}

/// The first half of a reconciliation: either the candidate status, or the
/// creation call that the provider must answer first.
pub fn reconcile_step(spec: &EfsRequestSpec, current: &Option<EfsRequestStatus>) -> (r:
    ReconcileStep)
    ensures
        (r is Provision) == needs_provision(current_view(*current)),
        r matches ReconcileStep::Provision { call } ==> call.creation_token@ == CREATION_TOKEN@
            && tags_view(call.tags@) == request_tags(spec.name@, spec.owner@),
        r matches ReconcileStep::Settled { status } ==> status@ == held_status(
            current_view(*current),
        ),
{
    match current {
        None => ReconcileStep::Settled { status: EfsRequestStatus::default() },
        Some(s) => match &s.condition {
            EfsRequestCondition::Initialised => ReconcileStep::Provision {
                call: create_file_system_call(spec),
            },
            EfsRequestCondition::CreatingMountTargets => ReconcileStep::Settled {
                status: EfsRequestStatus::default(),
            },
            _ => ReconcileStep::Settled { status: s.duplicate() },
        },
    }
}

/// A phase's place in the provisioning order; a failure stands apart.
pub open spec fn stage(p: PhaseView) -> int {
    match p {
        PhaseView::Initialised => 0,
        PhaseView::CreatingFileSystem => 1,
        PhaseView::CreatingMountTargets => 2,
        PhaseView::Success => 3,
        PhaseView::Failed { .. } => 4,
    }
}

/// The phase changes one reconciliation may make: none, one step forward,
/// any phase to a failure, or the fallback from mount-target creation to the
/// initial phase.
pub open spec fn single_step(from: PhaseView, to: PhaseView) -> bool {
    ||| stage(to) == stage(from)
    ||| to is Failed
    ||| (from !is Failed && to !is Failed && stage(to) == stage(from) + 1)
    ||| (from is CreatingMountTargets && to is Initialised)
}

/// The phase of a status that may be absent; a missing status is initial.
pub open spec fn phase_of(current: Option<StatusView>) -> PhaseView {
    match current {
        Some(s) => s.condition,
        None => PhaseView::Initialised,
    }
}

/// A status that is creating its file system, provisioned or failed is held:
/// reconciling it yields it unchanged, whatever the provider would answer, so
/// reconciling the result again yields the same status.
pub proof fn lemma_hold_is_idempotent(
    current: StatusView,
    outcome: Result<Seq<char>, Seq<char>>,
    again: Result<Seq<char>, Seq<char>>,
)
    requires
        current.condition is CreatingFileSystem || current.condition is Success
            || current.condition is Failed,
    ensures
        next_status(Some(current), outcome) == current,
        next_status(Some(next_status(Some(current), outcome)), again) == next_status(
            Some(current),
            outcome,
        ),
{
}

/// Every reconciliation changes the phase by at most one step of the
/// transition table: it never skips a phase.
pub proof fn lemma_single_step(current: Option<StatusView>, outcome: Result<Seq<char>, Seq<char>>)
    ensures
        single_step(phase_of(current), next_status(current, outcome).condition),
{
}

} // verus!
