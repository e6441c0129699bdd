use kuroya_logic::save_requests::{
    finish_current_save_request, finish_save_request, has_active_save_work, reserve_save_request,
    FinishedSaveRequest, SaveRequest,
};
use std::collections::{HashMap, HashSet};

#[test]
fn reserve_save_request_drops_orphaned_queue_before_spawning() {
    let stale_path = "workspace/src/stale.rs".to_string();
    let fresh_path = "workspace/src/fresh.rs";
    let mut in_flight = HashSet::new();
    let mut queued = HashMap::from([(7, stale_path)]);

    assert_eq!(
        reserve_save_request(7, fresh_path, &mut in_flight, &mut queued),
        SaveRequest::Spawn
    );

    assert!(in_flight.contains(&7));
    assert!(!queued.contains_key(&7));
}

#[test]
fn stale_save_completion_keeps_queued_path_for_current_owner() {
    let queued_path = "workspace/src/queued.rs".to_string();
    let mut in_flight = HashSet::new();
    let mut queued = HashMap::from([(7, queued_path.clone())]);

    assert_eq!(
        finish_current_save_request(7, &mut in_flight, &mut queued),
        FinishedSaveRequest::Stale
    );

    assert_eq!(queued.get(&7), Some(&queued_path));
}

#[test]
fn repeated_queued_save_request_keeps_single_latest_path() {
    let first = "workspace/src/main.rs";
    let queued_path = "workspace/src/queued.rs";
    let mut in_flight = HashSet::new();
    let mut queued = HashMap::new();

    assert_eq!(
        reserve_save_request(7, first, &mut in_flight, &mut queued),
        SaveRequest::Spawn
    );
    assert_eq!(
        reserve_save_request(7, queued_path, &mut in_flight, &mut queued),
        SaveRequest::Queued
    );
    assert_eq!(
        reserve_save_request(7, queued_path, &mut in_flight, &mut queued),
        SaveRequest::Queued
    );

    assert_eq!(queued.len(), 1);
    assert_eq!(queued.get(&7), Some(&queued_path.to_string()));
}

#[test]
fn active_save_work_includes_pending_format_without_disk_request() {
    let in_flight = HashSet::new();
    let queued = HashMap::new();
    let pending_format = HashMap::from([(7, ())]);

    assert!(has_active_save_work(7, &in_flight, &queued, &pending_format));
}

#[test]
fn finishing_a_running_save_hands_back_the_latest_queued_path() {
    let mut in_flight = HashSet::new();
    let mut queued = HashMap::new();

    reserve_save_request(3, "a.rs", &mut in_flight, &mut queued);
    reserve_save_request(3, "b.rs", &mut in_flight, &mut queued);
    reserve_save_request(3, "c.rs", &mut in_flight, &mut queued);

    assert_eq!(
        finish_current_save_request(3, &mut in_flight, &mut queued),
        FinishedSaveRequest::Current { queued_path: Some("c.rs".to_string()) }
    );
    assert!(!in_flight.contains(&3));
    assert!(queued.is_empty());
    assert!(!has_active_save_work(3, &in_flight, &queued, &HashMap::<u64, ()>::new()));
}

#[test]
fn finish_save_request_reports_nothing_queued_or_stale() {
    let mut in_flight = HashSet::new();
    let mut queued = HashMap::new();

    assert_eq!(finish_save_request(9, &mut in_flight, &mut queued), None);
    reserve_save_request(9, "main.rs", &mut in_flight, &mut queued);
    assert_eq!(finish_save_request(9, &mut in_flight, &mut queued), None);
    assert!(in_flight.is_empty());

    reserve_save_request(9, "main.rs", &mut in_flight, &mut queued);
    reserve_save_request(9, "lib.rs", &mut in_flight, &mut queued);
    assert_eq!(
        finish_save_request(9, &mut in_flight, &mut queued),
        Some("lib.rs".to_string())
    );
}
