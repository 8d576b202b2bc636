use vstd::prelude::*;
use vstd::string::StringExecFns;
use crate::model::{EfsRequestCondition, EfsRequestStatus, PhaseView, StatusView};

verus! {

/// The JSON string literal that encodes `s`, quotes and escapes included.
pub uninterp spec fn json_quoted(s: Seq<char>) -> Seq<char>;

/// Relies on serde_json: `Value::String(s)` displayed in compact form is the
/// JSON string literal for `s`, which depends on the characters of `s` alone.
#[verifier::external_body]
fn json_string(s: String) -> (r: String)
    ensures
        r@ == json_quoted(s@),
{
    serde_json::Value::String(s).to_string()
}

/// The `condition` member of the status document: the phase under the key
/// `phase`, and the reason of a failure under the key `reason`.
pub open spec fn condition_json(c: PhaseView) -> Seq<char> {
    match c {
        PhaseView::Initialised => "{\"phase\":\"Initialised\"}"@,
        PhaseView::CreatingFileSystem => "{\"phase\":\"CreatingFileSystem\"}"@,
        PhaseView::CreatingMountTargets => "{\"phase\":\"CreatingMountTargets\"}"@,
        PhaseView::Success => "{\"phase\":\"Success\"}"@,
        PhaseView::Failed { reason } => "{\"phase\":\"Failed\",\"reason\":"@ + json_quoted(reason)
            + "}"@,
    }
}

/// The `file_system_id` member of the status document.
pub open spec fn id_json(id: Option<Seq<char>>) -> Seq<char> {
    match id {
        Some(s) => json_quoted(s),
        None => "null"@,
    }
}

/// The status document, keys in sorted order.
pub open spec fn status_json(s: StatusView) -> Seq<char> {
    "{\"condition\":"@ + condition_json(s.condition) + ",\"file_system_id\":"@ + id_json(
        s.file_system_id,
    ) + "}"@
}

/// The merge patch that replaces an object's status with `s`.
pub open spec fn status_patch_json(s: StatusView) -> Seq<char> {
    "{\"status\":"@ + status_json(s) + "}"@
}

fn condition_document(c: &EfsRequestCondition) -> (r: String)
    ensures
        r@ == condition_json(c@),
{
    match c {
        EfsRequestCondition::Initialised => String::from_str("{\"phase\":\"Initialised\"}"),
        EfsRequestCondition::CreatingFileSystem => String::from_str(
            "{\"phase\":\"CreatingFileSystem\"}",
        ),
        EfsRequestCondition::CreatingMountTargets => String::from_str(
            "{\"phase\":\"CreatingMountTargets\"}",
        ),
        EfsRequestCondition::Success => String::from_str("{\"phase\":\"Success\"}"),
        EfsRequestCondition::Failed { reason } => {
            let mut r = String::from_str("{\"phase\":\"Failed\",\"reason\":");
            let q = json_string(reason.clone());
            r.append(q.as_str());
            r.append("}");
            r
        },
    }
}

/// The status document of `s`.
pub fn status_document(s: &EfsRequestStatus) -> (r: String)
    ensures
        r@ == status_json(s@),
{
    let mut r = String::from_str("{\"condition\":");
    let c = condition_document(&s.condition);
    r.append(c.as_str());
    r.append(",\"file_system_id\":");
    match &s.file_system_id {
        Some(id) => {
            let q = json_string(id.clone());
            r.append(q.as_str());
        },
        None => {
            r.append("null");
        },
    }
    r.append("}");
    r
}

/// The patch body that sets an object's status to `s`.
pub fn status_patch(s: &EfsRequestStatus) -> (r: String)
    ensures
        r@ == status_patch_json(s@),
{
    let mut r = String::from_str("{\"status\":");
    let d = status_document(s);
    r.append(d.as_str());
    r.append("}");
    r
}

} // verus!
