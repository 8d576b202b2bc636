use kube_controller_rs::driver::{conclude, error_policy, requeue_after, StatusUpdate};
use kube_controller_rs::model::{EfsRequestCondition, EfsRequestSpec, EfsRequestStatus};
use kube_controller_rs::provider::{
    create_file_system_call, status_after_create, ProviderFailure,
};
use kube_controller_rs::reconciler::{reconcile_step, ReconcileStep};
use kube_controller_rs::wire::{status_document, status_patch};

fn request(name: &str, owner: &str) -> EfsRequestSpec {
    EfsRequestSpec { name: name.to_string(), owner: owner.to_string() }
}

fn status(id: Option<&str>, condition: EfsRequestCondition) -> EfsRequestStatus {
    EfsRequestStatus { file_system_id: id.map(|s| s.to_string()), condition }
}

fn settled(step: ReconcileStep) -> EfsRequestStatus {
    match step {
        ReconcileStep::Settled { status } => status,
        ReconcileStep::Provision { .. } => panic!("expected a settled status"),
    }
}

#[test]
fn tags_carry_name_and_owner() {
    let call = create_file_system_call(&request("vol1", "alice"));
    assert_eq!(call.tags.len(), 2);
    assert_eq!(call.tags[0].key, "Name");
    assert_eq!(call.tags[0].value, "vol1");
    assert_eq!(call.tags[1].key, "Owner");
    assert_eq!(call.tags[1].value, "alice");
    assert_eq!(call.creation_token, "test");
}

#[test]
fn initialised_status_asks_for_creation_with_tags() {
    let current = Some(status(None, EfsRequestCondition::Initialised));
    match reconcile_step(&request("vol1", "alice"), &current) {
        ReconcileStep::Provision { call } => {
            assert_eq!(call.tags[0].value, "vol1");
            assert_eq!(call.tags[1].value, "alice");
        }
        ReconcileStep::Settled { .. } => panic!("expected a creation call"),
    }
}

#[test]
fn unknown_failure_body_becomes_failed_reason() {
    let failure = ProviderFailure::Unknown { body: "quota exceeded".to_string() };
    let s = status_after_create(Err(failure));
    assert_eq!(s.file_system_id, None);
    match s.condition {
        EfsRequestCondition::Failed { reason } => assert!(reason.contains("quota exceeded")),
        _ => panic!("expected a failed phase"),
    }
}

#[test]
fn other_failure_keeps_its_description() {
    let failure = ProviderFailure::Other { description: "access denied".to_string() };
    assert_eq!(failure.message(), "access denied");
    let s = status_after_create(Err(failure));
    assert_eq!(
        s,
        status(None, EfsRequestCondition::Failed { reason: "access denied".to_string() })
    );
}

#[test]
fn successful_creation_records_identifier() {
    let s = status_after_create(Ok("fs-123".to_string()));
    assert_eq!(s, status(Some("fs-123"), EfsRequestCondition::CreatingFileSystem));
}

#[test]
fn end_to_end_data_bob() {
    let spec = request("data", "bob");

    // First pass: no status yet, the default one is synthesized and stored.
    let first = settled(reconcile_step(&spec, &None));
    assert_eq!(first, status(None, EfsRequestCondition::Initialised));
    let update = conclude(&None, &first);
    assert_eq!(
        update.patch.as_deref(),
        Some("{\"status\":{\"condition\":{\"phase\":\"Initialised\"},\"file_system_id\":null}}")
    );
    assert_eq!(update.requeue_after_secs, 20);

    // Second pass: the provider is called and answers with an identifier.
    let current = Some(first);
    let call = match reconcile_step(&spec, &current) {
        ReconcileStep::Provision { call } => call,
        ReconcileStep::Settled { .. } => panic!("expected a creation call"),
    };
    assert_eq!(call.tags[0].value, "data");
    assert_eq!(call.tags[1].value, "bob");
    let second = status_after_create(Ok("fs-123".to_string()));
    assert_eq!(second, status(Some("fs-123"), EfsRequestCondition::CreatingFileSystem));
    let update = conclude(&current, &second);
    assert_eq!(
        update.patch.as_deref(),
        Some(
            "{\"status\":{\"condition\":{\"phase\":\"CreatingFileSystem\"},\"file_system_id\":\"fs-123\"}}"
        )
    );
    assert_eq!(update.requeue_after_secs, 20);

    // Third pass: the status is held and nothing is written.
    let current = Some(second);
    let third = settled(reconcile_step(&spec, &current));
    assert_eq!(Some(third.clone()), current);
    let update = conclude(&current, &third);
    assert_eq!(update.patch, None);
    assert_eq!(update.requeue_after_secs, 20);
}

#[test]
fn held_phases_are_idempotent() {
    let spec = request("vol1", "alice");
    let held = vec![
        status(Some("fs-1"), EfsRequestCondition::CreatingFileSystem),
        status(Some("fs-1"), EfsRequestCondition::Success),
        status(None, EfsRequestCondition::Failed { reason: "boom".to_string() }),
    ];
    for s in held {
        let current = Some(s.clone());
        let once = settled(reconcile_step(&spec, &current));
        assert_eq!(once, s);
        let twice = settled(reconcile_step(&spec, &Some(once.clone())));
        assert_eq!(twice, once);
        assert_eq!(conclude(&current, &once).patch, None);
    }
}

#[test]
fn mount_targets_fall_back_to_default() {
    let current = Some(status(Some("fs-9"), EfsRequestCondition::CreatingMountTargets));
    let next = settled(reconcile_step(&request("vol1", "alice"), &current));
    assert_eq!(next, status(None, EfsRequestCondition::Initialised));
    assert_eq!(next, EfsRequestStatus::default());
    assert!(conclude(&current, &next).patch.is_some());
}

#[test]
fn equal_status_issues_no_patch() {
    let a = status(Some("fs-1"), EfsRequestCondition::Success);
    let b = status(Some("fs-1"), EfsRequestCondition::Success);
    assert_eq!(conclude(&Some(a), &b).patch, None);
}

#[test]
fn changed_identifier_issues_patch() {
    let a = status(Some("fs-1"), EfsRequestCondition::Success);
    let b = status(Some("fs-2"), EfsRequestCondition::Success);
    assert_ne!(a, b);
    assert!(conclude(&Some(a), &b).patch.is_some());
}

#[test]
fn failed_document_escapes_reason() {
    let s = status(None, EfsRequestCondition::Failed { reason: "bad \"name\"\n".to_string() });
    assert_eq!(
        status_document(&s),
        "{\"condition\":{\"phase\":\"Failed\",\"reason\":\"bad \\\"name\\\"\\n\"},\"file_system_id\":null}"
    );
}

#[test]
fn documents_of_every_phase() {
    let cases = vec![
        (EfsRequestCondition::Initialised, "{\"phase\":\"Initialised\"}"),
        (EfsRequestCondition::CreatingFileSystem, "{\"phase\":\"CreatingFileSystem\"}"),
        (EfsRequestCondition::CreatingMountTargets, "{\"phase\":\"CreatingMountTargets\"}"),
        (EfsRequestCondition::Success, "{\"phase\":\"Success\"}"),
    ];
    for (condition, text) in cases {
        let s = status(Some("fs-7"), condition);
        let expected = format!("{{\"status\":{{\"condition\":{},\"file_system_id\":\"fs-7\"}}}}", text);
        assert_eq!(status_patch(&s), expected);
    }
}

#[test]
fn error_backoff_is_longer() {
    assert_eq!(error_policy(), 60);
    let update = StatusUpdate { patch: None, requeue_after_secs: 20 };
    assert_eq!(requeue_after(&update, true), 20);
    assert_eq!(requeue_after(&update, false), 60);
}

#[test]
fn default_condition_is_initialised() {
    assert_eq!(EfsRequestCondition::default(), EfsRequestCondition::Initialised);
    let s = EfsRequestStatus::default();
    assert_eq!(s.file_system_id, None);
    assert_eq!(s.condition, EfsRequestCondition::Initialised);
}

#[test]
fn request_equality_is_structural() {
    assert_eq!(request("a", "b"), request("a", "b"));
    assert_ne!(request("a", "b"), request("a", "c"));
    assert_ne!(
        EfsRequestCondition::Failed { reason: "x".to_string() },
        EfsRequestCondition::Failed { reason: "y".to_string() }
    );
}
