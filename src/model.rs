use vstd::prelude::*;

verus! {

/// The user-declared request: the file system's name and its owner.
#[derive(Debug, Clone)]
pub struct EfsRequestSpec {
    pub name: String,
    pub owner: String,
}

/// The controller-owned status attached to a request.
#[derive(Debug, Clone)]
pub struct EfsRequestStatus {
    pub file_system_id: Option<String>,
    pub condition: EfsRequestCondition,
}

/// The lifecycle phase of a request.
#[derive(Debug, Clone)]
pub enum EfsRequestCondition {
    Initialised,
    CreatingFileSystem,
    CreatingMountTargets,
    Success,
    Failed { reason: String },
}

/// Mathematical model of a request.
pub struct RequestView {
    pub name: Seq<char>,
    pub owner: Seq<char>,
}

/// Mathematical model of a phase.
pub enum PhaseView {
    Initialised,
    CreatingFileSystem,
    CreatingMountTargets,
    Success,
    Failed { reason: Seq<char> },
}

/// Mathematical model of a status.
pub struct StatusView {
    pub file_system_id: Option<Seq<char>>,
    pub condition: PhaseView,
}

impl View for EfsRequestSpec {
    type V = RequestView;

    open spec fn view(&self) -> RequestView {
        RequestView { name: self.name@, owner: self.owner@ }
    }
}

impl View for EfsRequestCondition {
    type V = PhaseView;

    open spec fn view(&self) -> PhaseView {
        match self {
            EfsRequestCondition::Initialised => PhaseView::Initialised,
            EfsRequestCondition::CreatingFileSystem => PhaseView::CreatingFileSystem,
            EfsRequestCondition::CreatingMountTargets => PhaseView::CreatingMountTargets,
            EfsRequestCondition::Success => PhaseView::Success,
            EfsRequestCondition::Failed { reason } => PhaseView::Failed { reason: reason@ },
        }
    }
}

/// The model of an optional identifier.
pub open spec fn id_view(id: Option<String>) -> Option<Seq<char>> {
    match id {
        Some(s) => Some(s@),
        None => None,
    }
}

impl View for EfsRequestStatus {
    type V = StatusView;

    open spec fn view(&self) -> StatusView {
        StatusView { file_system_id: id_view(self.file_system_id), condition: self.condition@ }
    }
}

/// The model of a status that may be absent.
pub open spec fn current_view(status: Option<EfsRequestStatus>) -> Option<StatusView> {
    match status {
        Some(s) => Some(s@),
        None => None,
    }
}

/// The status synthesized for a request seen for the first time.
pub open spec fn default_status() -> StatusView {
    StatusView { file_system_id: None, condition: PhaseView::Initialised }
}

fn same_id(a: &Option<String>, b: &Option<String>) -> (r: bool)
    ensures
        r == (id_view(*a) == id_view(*b)),
{
    match (a, b) {
        (Some(x), Some(y)) => *x == *y,
        (None, None) => true,
        _ => false,
    }
}

impl PartialEq for EfsRequestSpec {
    fn eq(&self, o: &EfsRequestSpec) -> (r: bool) {
        self.name == o.name && self.owner == o.owner
    }
}

impl vstd::std_specs::cmp::PartialEqSpecImpl for EfsRequestSpec {
    open spec fn obeys_eq_spec() -> bool {
        true
    }

    open spec fn eq_spec(&self, o: &EfsRequestSpec) -> bool {
        self@ == o@
    }
}

impl PartialEq for EfsRequestCondition {
    fn eq(&self, o: &EfsRequestCondition) -> (r: bool) {
        match (self, o) {
            (EfsRequestCondition::Initialised, EfsRequestCondition::Initialised) => true,
            (EfsRequestCondition::CreatingFileSystem, EfsRequestCondition::CreatingFileSystem) => true,
            (EfsRequestCondition::CreatingMountTargets, EfsRequestCondition::CreatingMountTargets) => true,
            (EfsRequestCondition::Success, EfsRequestCondition::Success) => true,
            (EfsRequestCondition::Failed { reason: a }, EfsRequestCondition::Failed { reason: b }) => *a == *b,
            _ => false,
        }
    }
}

impl vstd::std_specs::cmp::PartialEqSpecImpl for EfsRequestCondition {
    open spec fn obeys_eq_spec() -> bool {
        true
    }

    open spec fn eq_spec(&self, o: &EfsRequestCondition) -> bool {
        self@ == o@
    }
}

impl PartialEq for EfsRequestStatus {
    fn eq(&self, o: &EfsRequestStatus) -> (r: bool) {
        same_id(&self.file_system_id, &o.file_system_id) && self.condition == o.condition
    }
}

impl vstd::std_specs::cmp::PartialEqSpecImpl for EfsRequestStatus {
    open spec fn obeys_eq_spec() -> bool {
        true
    }

    open spec fn eq_spec(&self, o: &EfsRequestStatus) -> bool {
        self@ == o@
    }
}

impl Default for EfsRequestCondition {
    fn default() -> (r: EfsRequestCondition)
        ensures
            r@ == PhaseView::Initialised,
    {
        EfsRequestCondition::Initialised
    }
}

impl Default for EfsRequestStatus {
    fn default() -> (r: EfsRequestStatus)
        ensures
            r@ == default_status(),
    {
        EfsRequestStatus { file_system_id: None, condition: EfsRequestCondition::Initialised }
    }
}

impl EfsRequestCondition {
    /// A copy of this phase.
    pub fn duplicate(&self) -> (r: EfsRequestCondition)
        ensures
            r@ == self@,
    {
        match self {
            EfsRequestCondition::Initialised => EfsRequestCondition::Initialised,
            EfsRequestCondition::CreatingFileSystem => EfsRequestCondition::CreatingFileSystem,
            EfsRequestCondition::CreatingMountTargets => EfsRequestCondition::CreatingMountTargets,
            EfsRequestCondition::Success => EfsRequestCondition::Success,
            EfsRequestCondition::Failed { reason } => EfsRequestCondition::Failed {
                reason: reason.clone(),
            },
        }
    }
}

impl EfsRequestStatus {
    /// A copy of this status.
    pub fn duplicate(&self) -> (r: EfsRequestStatus)
        ensures
            r@ == self@,
    {
        let id = match &self.file_system_id {
            Some(s) => Some(s.clone()),
            None => None,
        };
        EfsRequestStatus { file_system_id: id, condition: self.condition.duplicate() }
    }
}

} // verus!
