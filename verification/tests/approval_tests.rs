use agent_core::approval::{ApprovalStatus, ApprovalStore, ResolveDecision};

fn store_with_pending() -> (ApprovalStore, u64) {
    let mut store = ApprovalStore::new();
    let id = store.create("systemctl restart db", 5, 50, 42);
    (store, id)
}

#[test]
fn create_records_a_pending_request() {
    let (store, id) = store_with_pending();
    assert_eq!(id, 0);
    let req = store.get(id).expect("request must exist");
    assert_eq!(req.command, "systemctl restart db");
    assert_eq!(req.status, ApprovalStatus::Pending);
    assert_eq!(req.requester_id, 5);
    assert_eq!(req.requester_chat_id, 50);
    assert_eq!(req.created_at, 42);
    assert!(req.result.is_none());
}

#[test]
fn ids_count_up_from_zero() {
    let mut store = ApprovalStore::new();
    assert_eq!(store.create("a", 1, 1, 0), 0);
    assert_eq!(store.create("b", 1, 1, 0), 1);
    assert_eq!(store.create("c", 1, 1, 0), 2);
    assert_eq!(store.len(), 3);
}

#[test]
fn unauthorized_resolver_is_rejected_without_change() {
    let (store, id) = store_with_pending();
    let reviewers = vec![100, 200];
    let decision = store.resolve_decide(id, true, 999, &reviewers);
    assert!(matches!(decision, ResolveDecision::NotAuthorized));
    assert_eq!(store.get(id).unwrap().status, ApprovalStatus::Pending);
}

#[test]
fn unknown_id_reports_not_found() {
    let (store, _) = store_with_pending();
    let reviewers = vec![100];
    let decision = store.resolve_decide(17, true, 100, &reviewers);
    assert!(matches!(decision, ResolveDecision::NotFound));
}

#[test]
fn approving_a_pending_request_hands_back_its_command() {
    let (store, id) = store_with_pending();
    let reviewers = vec![100];
    match store.resolve_decide(id, true, 100, &reviewers) {
        ResolveDecision::RunApproved { command } => {
            assert_eq!(command, "systemctl restart db");
        },
        _ => panic!("expected an approved run"),
    }
}

#[test]
fn denying_a_pending_request_records_a_denial() {
    let (mut store, id) = store_with_pending();
    let reviewers = vec![100];
    assert!(matches!(
        store.resolve_decide(id, false, 100, &reviewers),
        ResolveDecision::RecordDenial
    ));
    store.resolve_apply(id, false, None);
    let req = store.get(id).unwrap();
    assert_eq!(req.status, ApprovalStatus::Denied);
    assert!(req.result.is_none());
}

#[test]
fn approval_records_status_and_output() {
    let (mut store, id) = store_with_pending();
    store.resolve_apply(id, true, Some("restarted".to_string()));
    let req = store.get(id).unwrap();
    assert_eq!(req.status, ApprovalStatus::Approved);
    assert_eq!(req.result.as_deref(), Some("restarted"));
    assert_eq!(req.command, "systemctl restart db");
}

#[test]
fn approve_then_approve_keeps_first_resolution() {
    let (mut store, id) = store_with_pending();
    let reviewers = vec![100];
    store.resolve_apply(id, true, Some("done".to_string()));
    let second = store.resolve_decide(id, true, 100, &reviewers);
    match second {
        ResolveDecision::AlreadyResolved { status } => {
            assert_eq!(status, ApprovalStatus::Approved)
        },
        _ => panic!("expected the idempotent report"),
    }
    assert_eq!(store.get(id).unwrap().status, ApprovalStatus::Approved);
}

#[test]
fn approve_then_deny_keeps_first_resolution() {
    let (mut store, id) = store_with_pending();
    let reviewers = vec![100];
    store.resolve_apply(id, true, Some("done".to_string()));
    let second = store.resolve_decide(id, false, 100, &reviewers);
    match second {
        ResolveDecision::AlreadyResolved { status } => {
            assert_eq!(status, ApprovalStatus::Approved)
        },
        _ => panic!("expected the idempotent report"),
    }
    assert_eq!(store.get(id).unwrap().status, ApprovalStatus::Approved);
}

#[test]
fn deny_then_approve_keeps_first_resolution() {
    let (mut store, id) = store_with_pending();
    let reviewers = vec![100];
    store.resolve_apply(id, false, None);
    let second = store.resolve_decide(id, true, 100, &reviewers);
    match second {
        ResolveDecision::AlreadyResolved { status } => {
            assert_eq!(status, ApprovalStatus::Denied)
        },
        _ => panic!("expected the idempotent report"),
    }
    assert_eq!(store.get(id).unwrap().status, ApprovalStatus::Denied);
}

#[test]
fn resolution_leaves_other_requests_alone() {
    let mut store = ApprovalStore::new();
    let a = store.create("first", 1, 10, 0);
    let b = store.create("second", 2, 20, 0);
    store.resolve_apply(b, true, Some("ok".to_string()));
    assert_eq!(store.get(a).unwrap().status, ApprovalStatus::Pending);
    assert_eq!(store.get(b).unwrap().status, ApprovalStatus::Approved);
}
