use omg_ddns::client::HttpMethod;
use omg_ddns::errors::DdnsError;
use omg_ddns::orchestrate::{FamilyPass, plan_family, qualify, resolve_credential};
use omg_ddns::plan::{ProviderCall, UpsertMode, plan_calls};
use omg_ddns::reconcile::{Reconciliation, RunFailure};
use omg_ddns::records::{DesiredRecord, ExistingRecord, RecordType, find_match};

fn desired(rtype: RecordType, name: &str, data: &str) -> DesiredRecord {
    DesiredRecord {
        rtype,
        qualified_name: name.to_string(),
        data: data.to_string(),
    }
}

fn existing(id: u64, rtype: RecordType, name: &str, data: &str) -> ExistingRecord {
    ExistingRecord {
        id,
        rtype,
        qualified_name: name.to_string(),
        data: data.to_string(),
    }
}

#[test]
fn empty_snapshot_creates() {
    let snapshot: Vec<ExistingRecord> = vec![];
    let d = desired(RecordType::A, "foo.example.com", "1.2.3.4");
    let mut run = Reconciliation::begin("example", "KEY", &snapshot, &d, UpsertMode::UpdateCapable);
    let req = run.next_request().expect("one create expected");
    assert_eq!(req.method, HttpMethod::Post);
    assert_eq!(req.url, "https://api.omg.lol/address/example/dns");
    assert_eq!(req.authorization, "Bearer KEY");
    assert_eq!(
        req.body.as_deref(),
        Some("{\"type\":\"A\",\"name\":\"foo.example.com\",\"data\":\"1.2.3.4\"}")
    );
    run.record_response(200, String::new());
    assert!(run.succeeded());
    assert!(run.next_request().is_none());
}

#[test]
fn matched_record_is_updated_in_place() {
    let snapshot = vec![existing(7, RecordType::A, "foo.example.com", "9.9.9.9")];
    let d = desired(RecordType::A, "foo.example.com", "1.2.3.4");
    let mut run = Reconciliation::begin("example", "KEY", &snapshot, &d, UpsertMode::UpdateCapable);
    let req = run.next_request().expect("one update expected");
    assert_eq!(req.method, HttpMethod::Patch);
    assert_eq!(req.url, "https://api.omg.lol/address/example/dns/7");
    assert_eq!(
        req.body.as_deref(),
        Some("{\"type\":\"A\",\"name\":\"foo.example.com\",\"data\":\"1.2.3.4\"}")
    );
    run.record_response(200, String::new());
    assert!(run.succeeded());
    assert!(run.next_request().is_none());
}

#[test]
fn update_incapable_deletes_then_creates() {
    let snapshot = vec![existing(7, RecordType::A, "foo.example.com", "9.9.9.9")];
    let d = desired(RecordType::A, "foo.example.com", "1.2.3.4");
    let mut run =
        Reconciliation::begin("example", "KEY", &snapshot, &d, UpsertMode::UpdateIncapable);
    let del = run.next_request().expect("delete expected first");
    assert_eq!(del.method, HttpMethod::Delete);
    assert_eq!(del.url, "https://api.omg.lol/address/example/dns/7");
    assert!(del.body.is_none());
    run.record_response(200, String::new());
    let create = run.next_request().expect("create expected second");
    assert_eq!(create.method, HttpMethod::Post);
    assert_eq!(create.url, "https://api.omg.lol/address/example/dns");
    assert_eq!(
        create.body.as_deref(),
        Some("{\"type\":\"A\",\"name\":\"foo.example.com\",\"data\":\"1.2.3.4\"}")
    );
    run.record_response(200, String::new());
    assert!(run.succeeded());
}

#[test]
fn failed_delete_stops_the_run() {
    let snapshot = vec![existing(7, RecordType::A, "foo.example.com", "9.9.9.9")];
    let d = desired(RecordType::A, "foo.example.com", "1.2.3.4");
    let mut run =
        Reconciliation::begin("example", "KEY", &snapshot, &d, UpsertMode::UpdateIncapable);
    let del = run.next_request().expect("delete expected first");
    assert_eq!(del.method, HttpMethod::Delete);
    run.record_response(404, "no such record".to_string());
    assert!(run.next_request().is_none(), "create must never be attempted");
    assert!(!run.succeeded());
    let RunFailure { error, call } = run.failure.as_ref().expect("the run must report its failure");
    match error {
        DdnsError::Api { status, body } => {
            assert_eq!(*status, 404);
            assert_eq!(body, "no such record");
        }
        _ => panic!("an api failure was expected"),
    }
    assert!(matches!(call, ProviderCall::Delete { id: 7 }));
}

#[test]
fn failed_create_keeps_the_body() {
    let snapshot: Vec<ExistingRecord> = vec![];
    let d = desired(RecordType::AAAA, "foo.example.com", "::1");
    let mut run = Reconciliation::begin("example", "KEY", &snapshot, &d, UpsertMode::UpdateCapable);
    let _ = run.next_request().expect("one create expected");
    run.record_response(500, "{\"error\":\"boom\"}".to_string());
    assert!(run.next_request().is_none());
    let RunFailure { error, .. } = run.failure.as_ref().expect("the run must report its failure");
    match error {
        DdnsError::Api { status, body } => {
            assert_eq!(*status, 500);
            assert_eq!(body, "{\"error\":\"boom\"}");
        }
        _ => panic!("an api failure was expected"),
    }
}

#[test]
fn transport_failure_stops_the_run() {
    let snapshot: Vec<ExistingRecord> = vec![];
    let d = desired(RecordType::A, "foo.example.com", "1.2.3.4");
    let mut run = Reconciliation::begin("example", "KEY", &snapshot, &d, UpsertMode::UpdateCapable);
    let _ = run.next_request().expect("one create expected");
    run.record_transport_failure();
    assert!(run.next_request().is_none());
    assert!(!run.succeeded());
    let RunFailure { error, call } = run.failure.as_ref().expect("the run must report its failure");
    assert!(matches!(error, DdnsError::Transport));
    assert!(matches!(call, ProviderCall::Create { .. }));
}

#[test]
fn matching_is_exact_on_type_and_name() {
    let snapshot = vec![
        existing(1, RecordType::AAAA, "foo.example.com", "::1"),
        existing(2, RecordType::A, "bar.example.com", "9.9.9.9"),
    ];
    let d = desired(RecordType::A, "foo.example.com", "1.2.3.4");
    assert!(find_match(&snapshot, &d).is_none());
    let calls = plan_calls(&snapshot, &d, UpsertMode::UpdateCapable);
    assert_eq!(calls.len(), 1);
    assert!(matches!(&calls[0], ProviderCall::Create { .. }));
}

#[test]
fn first_of_several_matches_is_acted_upon() {
    let snapshot = vec![
        existing(3, RecordType::AAAA, "foo.example.com", "::1"),
        existing(4, RecordType::A, "foo.example.com", "9.9.9.9"),
        existing(5, RecordType::A, "foo.example.com", "8.8.8.8"),
    ];
    let d = desired(RecordType::A, "foo.example.com", "1.2.3.4");
    assert_eq!(find_match(&snapshot, &d), Some(1));
    let calls = plan_calls(&snapshot, &d, UpsertMode::UpdateCapable);
    assert_eq!(calls.len(), 1);
    match &calls[0] {
        ProviderCall::Update { id, desired } => {
            assert_eq!(*id, 4, "only the first match in snapshot order is touched");
            assert_eq!(desired.data, "1.2.3.4");
        }
        _ => panic!("an update was expected"),
    }
}

#[test]
fn delete_then_create_plan_is_ordered() {
    let snapshot = vec![existing(9, RecordType::TXT, "note.example.com", "old")];
    let d = desired(RecordType::TXT, "note.example.com", "new");
    let calls = plan_calls(&snapshot, &d, UpsertMode::UpdateIncapable);
    assert_eq!(calls.len(), 2);
    assert!(matches!(&calls[0], ProviderCall::Delete { id: 9 }));
    match &calls[1] {
        ProviderCall::Create { desired } => assert_eq!(desired.data, "new"),
        _ => panic!("a create was expected after the delete"),
    }
}

#[test]
fn skipped_family_plans_no_calls() {
    let pass = plan_family(RecordType::AAAA, "foo.example.com".to_string(), None);
    assert!(matches!(pass, FamilyPass::Skip));
}

#[test]
fn discovered_family_plans_a_run() {
    let pass = plan_family(
        RecordType::A,
        "foo.example.com".to_string(),
        Some("1.2.3.4".to_string()),
    );
    match pass {
        FamilyPass::Run { desired } => {
            assert!(matches!(desired.rtype, RecordType::A));
            assert_eq!(desired.qualified_name, "foo.example.com");
            assert_eq!(desired.data, "1.2.3.4");
        }
        FamilyPass::Skip => panic!("a run was expected for a discovered address"),
    }
}

#[test]
fn qualified_name_joins_with_a_dot() {
    assert_eq!(qualify("foo", "example"), "foo.example");
}

#[test]
fn explicit_credential_wins() {
    let r = resolve_credential(Some("flag".to_string()), Some("env".to_string()));
    assert_eq!(r.ok().as_deref(), Some("flag"));
}

#[test]
fn environment_credential_is_the_fallback() {
    let r = resolve_credential(None, Some("env".to_string()));
    assert_eq!(r.ok().as_deref(), Some("env"));
}

#[test]
fn missing_credential_is_not_found() {
    let r = resolve_credential(None, None);
    assert!(matches!(r, Err(DdnsError::NotFound)));
}
