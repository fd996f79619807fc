use prism::background::after_failed_write;
use prism::background::persist_marker_in;
use prism::background::remote_mutation_targets_overlap;
use prism::background::retry_backoff;
use prism::background::Marker;
use prism::background::MarkerKey;
use prism::background::RemoteContext;
use prism::background::RemoteMutationTarget;
use prism::background_runtime::BackgroundRuntime;
use prism::jobs::TuiJobKey;
use prism::keys::WorktreeRepositoryKey;
use prism::table::Key;
use prism::table::KeySet;
use prism::table::Table;

fn unknown(marker_id: &str) -> RemoteMutationTarget {
    RemoteMutationTarget::Unknown {
        marker_id: marker_id.to_string(),
    }
}

fn resources(names: &[&str]) -> RemoteMutationTarget {
    RemoteMutationTarget::Resources {
        names: names.iter().map(|name| name.to_string()).collect(),
    }
}

fn marker(target: RemoteMutationTarget, version: u64, job_id: u64) -> Marker {
    Marker {
        target,
        ledger: None,
        database_path: "db".to_string(),
        job_id,
        reason: "uncertain".to_string(),
        recorded_unix_ms: version,
    }
}

fn repository(root: &str) -> WorktreeRepositoryKey {
    WorktreeRepositoryKey::new(root.to_string())
}

fn marker_key(version: u64, job_id: u64) -> MarkerKey {
    MarkerKey {
        root: "repo".to_string(),
        version,
        job_id,
    }
}

#[test]
fn marker_admission_stays_closed_until_startup_load_finishes() {
    let mut runtime = BackgroundRuntime::new(0);
    let repository = repository("repo");
    let target = unknown("startup");

    assert!(runtime.marker_blocks(&repository, &target));
    let mut loaded = KeySet::new();
    loaded.insert(repository.copy_key());
    runtime.apply_loaded_markers(&loaded, Table::new());
    assert!(!runtime.marker_blocks(&repository, &target));
}

#[test]
fn failed_reconciliation_job_releases_the_retry_key() {
    let mut runtime = BackgroundRuntime::new(0);
    let key = marker_key(1, 2);

    assert!(runtime.begin_reconciliation(key.copy_key()));
    runtime.track_reconciliation_job(3, key.copy_key());
    runtime.fail_reconciliation_job(3);

    assert!(runtime.begin_reconciliation(key));
}

#[test]
fn stale_reconciliation_cannot_clear_newer_marker() {
    let mut runtime = BackgroundRuntime::new(0);
    let root = repository("repo");
    runtime.upsert_marker(root.copy_key(), marker(unknown("same"), 2, 2));
    runtime.finish_reconciliation(&root, 1, 1, &unknown("same"), true);
    assert_eq!(runtime.markers(&root).unwrap()[0].recorded_unix_ms, 2);
}

#[test]
fn superseded_marker_write_is_not_reported_as_persisted() {
    let mut markers = vec![marker(unknown("same"), 2, 2)];

    let persisted = persist_marker_in(&mut markers, &marker(unknown("same"), 1, 1));

    assert!(!persisted);
    assert_eq!(markers.len(), 1);
    assert_eq!(markers[0].recorded_unix_ms, 2);
}

#[test]
fn shutdown_preserves_reconciliation_jobs_and_orders_admission_cutoff() {
    let mut runtime = BackgroundRuntime::new(0);
    let id = 5;
    runtime.track_remote_action(
        id,
        RemoteContext {
            key: TuiJobKey::Inventory,
            target: unknown("x"),
            ledger: "request".to_string(),
        },
    );
    assert_eq!(runtime.begin_shutdown(1), 1);
    assert!(runtime.remote_action_is_tracked(id));
    assert!(runtime.is_draining());
    assert!(runtime.is_accepting());
    assert_eq!(runtime.stop_admission_for_shutdown(), Some(vec![id]));
    assert!(!runtime.is_accepting());
    assert_eq!(runtime.stop_admission_for_shutdown(), None);
}

#[test]
fn stale_work_is_cancelled_unless_it_changes_a_remote() {
    let mut runtime = BackgroundRuntime::new(0);
    runtime.track_remote_action(
        3,
        RemoteContext {
            key: TuiJobKey::Inventory,
            target: unknown("x"),
            ledger: String::new(),
        },
    );
    let mut current = KeySet::new();
    current.insert(1);
    assert_eq!(runtime.cancel_stale_except(&vec![1, 2, 3], &current), vec![2]);
}

#[test]
fn markers_block_what_they_touch() {
    let mut runtime = BackgroundRuntime::new(0);
    let root = repository("repo");
    let mut loaded = KeySet::new();
    loaded.insert(root.copy_key());
    runtime.apply_loaded_markers(&loaded, Table::new());
    runtime.upsert_marker(root.copy_key(), marker(resources(&["pr:1", "branch:a"]), 1, 1));
    assert!(runtime.marker_blocks(&root, &resources(&["branch:a"])));
    assert!(!runtime.marker_blocks(&root, &resources(&["branch:b"])));
    runtime.finish_reconciliation(&root, 1, 1, &resources(&["pr:1", "branch:a"]), true);
    assert!(!runtime.marker_blocks(&root, &resources(&["branch:a"])));
}

#[test]
fn overlapping_targets_share_a_name() {
    assert!(remote_mutation_targets_overlap(
        &resources(&["a", "b"]),
        &resources(&["c", "b"])
    ));
    assert!(!remote_mutation_targets_overlap(
        &resources(&["a"]),
        &resources(&["c"])
    ));
}

#[test]
fn waits_grow_up_to_their_maximum() {
    let waits: Vec<u64> = (0..8).map(|failures| retry_backoff(failures, 250)).collect();
    assert_eq!(waits, [10, 10, 20, 40, 80, 160, 250, 250]);
    assert_eq!(retry_backoff(u32::MAX, 250), 250);
    assert_eq!(retry_backoff(u32::MAX, 2_000), 320);
    assert_eq!(after_failed_write(0).0, 1);
}

#[test]
fn markers_are_written_once_and_known_to_be_stored() {
    let mut runtime = BackgroundRuntime::new(10);
    let root = repository("repo");
    runtime.persist_marker(&root, marker(unknown("x"), 7, 8));
    assert_eq!(runtime.unresolved_marker_persistence(), 1);
    assert!(runtime.writer_start_is_due(10));
    runtime.writer_started(10);
    let unsent = runtime.unsent_markers();
    assert_eq!(unsent.len(), 1);
    assert_eq!(
        runtime.pending_marker(&unsent[0]).unwrap().recorded_unix_ms,
        7
    );
    runtime.marker_sent(&unsent[0]);
    assert!(runtime.unsent_markers().is_empty());
    runtime.apply_persistence_result(&unsent[0], &Ok(true));
    assert_eq!(runtime.unresolved_marker_persistence(), 0);
    assert!(runtime.marker_is_persisted(&unsent[0]));
}

#[test]
fn markers_in_hand_of_a_lost_writer_are_sent_again() {
    let mut runtime = BackgroundRuntime::new(0);
    let root = repository("repo");
    runtime.persist_marker(&root, marker(unknown("x"), 7, 8));
    runtime.writer_started(0);
    let unsent = runtime.unsent_markers();
    runtime.marker_sent(&unsent[0]);
    runtime.writer_lost(4);
    assert!(runtime.unsent_markers().is_empty());
    assert!(runtime.writer_start_is_due(4));
    runtime.record_marker_writer_start_failure(4);
    assert!(!runtime.writer_start_is_due(13));
    assert!(runtime.writer_start_is_due(14));
    runtime.writer_started(14);
    assert_eq!(runtime.unsent_markers().len(), 1);
}

#[test]
fn markers_of_a_repository_are_read_once_at_a_time() {
    let mut runtime = BackgroundRuntime::new(0);
    let root = repository("repo");
    let mut repositories = KeySet::new();
    repositories.insert(root.copy_key());

    assert!(runtime.begin_marker_load(root.copy_key()));
    assert!(!runtime.begin_marker_load(root.copy_key()));
    runtime.finish_marker_loads(&repositories);
    assert!(!runtime.markers_are_loaded(&root));
    assert!(runtime.begin_marker_load(root.copy_key()));
    runtime.apply_loaded_markers(&repositories, Table::new());
    assert!(runtime.markers_are_loaded(&root));
    assert!(!runtime.begin_marker_load(root));
}

#[test]
fn repositories_that_are_gone_take_their_markers_along() {
    let mut runtime = BackgroundRuntime::new(0);
    let (kept, gone) = (repository("kept"), repository("gone"));
    runtime.upsert_marker(kept.copy_key(), marker(unknown("a"), 1, 1));
    runtime.upsert_marker(kept.copy_key(), marker(unknown("b"), 1, 2));
    runtime.upsert_marker(gone.copy_key(), marker(unknown("c"), 1, 3));
    assert_eq!(runtime.marker_count(&kept), 2);
    assert_eq!(runtime.marker_count(&gone), 1);

    let mut repositories = KeySet::new();
    repositories.insert(kept.copy_key());
    runtime.retain_repositories(&repositories);
    assert_eq!(runtime.marker_count(&kept), 2);
    assert_eq!(runtime.marker_count(&gone), 0);
}

#[test]
fn changes_to_remotes_are_followed_by_their_ids() {
    let mut runtime = BackgroundRuntime::new(0);
    for id in [4, 2] {
        runtime.track_remote_action(
            id,
            RemoteContext {
                key: TuiJobKey::System,
                target: unknown("same"),
                ledger: "ledger".to_string(),
            },
        );
    }
    runtime.finish_remote_action(4);
    assert_eq!(runtime.tracked_remote_action_ids(), [2]);
    assert!(runtime.begin_routing());
    assert!(runtime.is_routing());
    runtime.finish_routing();
    assert!(!runtime.is_routing());
}
