use brim::progress::ProgressState;
use brim::store::{EntryUpdate, ProgressStore};
use brim::webhook::{collect_results, PackageResult, WebhookPayload};

fn result(name: &str, status: &str) -> PackageResult {
    PackageResult { name: name.to_string(), status: status.to_string() }
}

#[test]
fn test_webhook_payload_success() {
    let packages = vec![
        PackageResult {
            name: "postgresql".to_string(),
            status: "completed".to_string(),
        },
        PackageResult {
            name: "redis".to_string(),
            status: "completed".to_string(),
        },
    ];

    let payload = WebhookPayload {
        status: "success".to_string(),
        total: 2,
        completed: 2,
        failed: 0,
        packages,
        elapsed_seconds: 120,
    };

    assert_eq!(payload.status, "success");
    assert_eq!(payload.total, 2);
    assert_eq!(payload.completed, 2);
    assert_eq!(payload.failed, 0);
}

#[test]
fn test_package_result_creation() {
    let result = PackageResult {
        name: "test-package".to_string(),
        status: "completed".to_string(),
    };

    assert_eq!(result.name, "test-package");
    assert_eq!(result.status, "completed");
}

#[test]
fn payload_from_results_all_completed_is_success() {
    let payload = WebhookPayload::from_results(
        vec![result("postgresql", "completed"), result("redis", "completed")],
        120,
    );
    assert_eq!(payload.status, "success");
    assert_eq!(payload.total, 2);
    assert_eq!(payload.completed, 2);
    assert_eq!(payload.failed, 0);
    assert_eq!(payload.elapsed_seconds, 120);
    assert_eq!(payload.packages.len(), 2);
}

#[test]
fn payload_from_results_with_failure_is_partial() {
    let payload = WebhookPayload::from_results(
        vec![result("postgresql", "completed"), result("redis", "failed")],
        120,
    );
    assert_eq!(payload.status, "partial");
    assert_eq!(payload.total, 2);
    assert_eq!(payload.completed, 1);
    assert_eq!(payload.failed, 1);
    assert_eq!(payload.packages[1].name, "redis");
}

#[test]
fn payload_counts_only_known_labels() {
    let payload = WebhookPayload::from_results(
        vec![result("a", "pending"), result("b", "failed"), result("c", "failed")],
        7,
    );
    assert_eq!(payload.total, 3);
    assert_eq!(payload.completed, 0);
    assert_eq!(payload.failed, 2);
    assert_eq!(payload.status, "partial");
}

#[test]
fn payload_of_empty_batch_is_success() {
    let payload = WebhookPayload::from_results(Vec::new(), 0);
    assert_eq!(payload.status, "success");
    assert_eq!(payload.total, 0);
}

#[test]
fn collector_reports_each_entry_in_order() {
    let mut store = ProgressStore::new(vec!["git".to_string(), "wget".to_string()]);
    store.update(
        1,
        EntryUpdate { state: Some(ProgressState::Installing), percent: None, message: None },
    );
    let results = collect_results(&store);
    assert_eq!(results.len(), 2);
    assert_eq!(results[0].name, "git");
    assert_eq!(results[0].status, "pending");
    assert_eq!(results[1].name, "wget");
    assert_eq!(results[1].status, "installing");
}

#[test]
fn collector_is_idempotent_on_finished_store() {
    let mut store = ProgressStore::new(vec!["git".to_string(), "wget".to_string()]);
    for (i, s) in [(0, ProgressState::Installing), (1, ProgressState::Installing)] {
        store.update(i, EntryUpdate { state: Some(s), percent: None, message: None });
    }
    store.update(0, EntryUpdate { state: Some(ProgressState::Completed), percent: Some(100), message: None });
    store.update(1, EntryUpdate { state: Some(ProgressState::Failed), percent: Some(0), message: None });
    let first = collect_results(&store);
    // a late write to a finished entry leaves its name and state
    store.update(0, EntryUpdate { state: Some(ProgressState::Failed), percent: Some(3), message: Some("late".to_string()) });
    let second = collect_results(&store);
    assert_eq!(first.len(), second.len());
    for (a, b) in first.iter().zip(second.iter()) {
        assert_eq!(a.name, b.name);
        assert_eq!(a.status, b.status);
    }
    assert_eq!(second[0].status, "completed");
    assert_eq!(second[1].status, "failed");
}
