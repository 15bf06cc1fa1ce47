//! Single-timer operations driven through the registry.

use countdown_core::registry::{AppState, TimerError};
use countdown_core::timer::{TimerState, TimerStatus};

fn timer(id: &str, status: TimerStatus, duration: u64, remaining: u64, end: Option<u64>) -> TimerState {
    TimerState {
        id: id.to_string(),
        label: String::new(),
        duration_seconds: duration,
        remaining_seconds: remaining,
        status,
        end_time_unix: end,
    }
}

#[test]
fn create_makes_idle_timer_with_full_duration() {
    let mut reg = AppState::new();
    let t = reg.create_timer(60, "tea".to_string());
    assert_eq!(t.label, "tea");
    assert_eq!(t.duration_seconds, 60);
    assert_eq!(t.remaining_seconds, 60);
    assert_eq!(t.status, TimerStatus::Idle);
    assert_eq!(t.end_time_unix, None);
    assert_eq!(t.id.len(), 36);
    assert_eq!(reg.timers.len(), 1);
}

#[test]
fn create_assigns_distinct_ids() {
    let mut reg = AppState::new();
    let a = reg.create_timer(10, "a".to_string());
    let b = reg.create_timer(10, "b".to_string());
    assert_ne!(a.id, b.id);
    assert_eq!(reg.timers.len(), 2);
}

#[test]
fn start_arms_deadline_from_remaining() {
    let mut reg = AppState::new();
    let t = reg.create_timer(60, "t".to_string());
    let started = reg.start_timer(&t.id, 100).unwrap();
    assert_eq!(started.status, TimerStatus::Running);
    assert_eq!(started.end_time_unix, Some(160));
    assert_eq!(started.remaining_seconds, 60);
}

#[test]
fn start_twice_keeps_the_same_deadline() {
    let mut reg = AppState::new();
    let t = reg.create_timer(60, "t".to_string());
    let first = reg.start_timer(&t.id, 100).unwrap();
    let second = reg.start_timer(&t.id, 100).unwrap();
    assert_eq!(first.end_time_unix, second.end_time_unix);
    assert_eq!(second.status, TimerStatus::Running);
}

#[test]
fn start_unknown_id_is_not_found() {
    let mut reg = AppState::new();
    let r = reg.start_timer(&"nobody".to_string(), 0);
    assert!(matches!(r, Err(TimerError::NotFound)));
    assert_eq!(TimerError::NotFound.message(), "Timer not found");
}

#[test]
fn pause_freezes_elapsed_remaining() {
    let mut reg = AppState::new();
    let t = reg.create_timer(60, "t".to_string());
    reg.start_timer(&t.id, 0).unwrap();
    let paused = reg.pause_timer(&t.id, 10).unwrap();
    assert_eq!(paused.status, TimerStatus::Paused);
    assert_eq!(paused.remaining_seconds, 50);
    assert_eq!(paused.end_time_unix, None);
}

#[test]
fn pause_after_deadline_clamps_to_zero() {
    let mut reg = AppState::new();
    let t = reg.create_timer(60, "t".to_string());
    reg.start_timer(&t.id, 0).unwrap();
    let paused = reg.pause_timer(&t.id, 61).unwrap();
    assert_eq!(paused.remaining_seconds, 0);
    assert_eq!(paused.status, TimerStatus::Paused);
}

#[test]
fn pause_when_not_running_is_a_no_op() {
    let mut reg = AppState::new();
    let t = reg.create_timer(60, "t".to_string());
    let paused = reg.pause_timer(&t.id, 10).unwrap();
    assert_eq!(paused.status, TimerStatus::Idle);
    assert_eq!(paused.remaining_seconds, 60);
}

#[test]
fn reset_restores_full_duration_and_idle() {
    let mut reg = AppState::new();
    let t = reg.create_timer(60, "t".to_string());
    reg.start_timer(&t.id, 0).unwrap();
    let r = reg.reset_timer(&t.id).unwrap();
    assert_eq!(r.status, TimerStatus::Idle);
    assert_eq!(r.remaining_seconds, 60);
    assert_eq!(r.end_time_unix, None);
}

#[test]
fn delete_removes_the_timer() {
    let mut reg = AppState::new();
    let t = reg.create_timer(60, "t".to_string());
    assert_eq!(reg.delete_timer(&t.id), Ok(()));
    assert_eq!(reg.timers.len(), 0);
    assert_eq!(reg.delete_timer(&t.id), Err(TimerError::NotFound));
}

#[test]
fn extend_running_pushes_deadline_forward() {
    let mut reg = AppState::new();
    let t = reg.create_timer(60, "t".to_string());
    reg.start_timer(&t.id, 0).unwrap();
    let x = reg.add_extra_time(&t.id, 30, 5).unwrap();
    assert_eq!(x.status, TimerStatus::Running);
    assert_eq!(x.duration_seconds, 90);
    assert_eq!(x.remaining_seconds, 90);
    assert_eq!(x.end_time_unix, Some(90));
}

#[test]
fn extend_ended_revives_to_running() {
    let mut reg = AppState::new();
    let mut snapshot = Vec::new();
    snapshot.push(timer("e", TimerStatus::Ended, 60, 0, None));
    reg.sync_timers(snapshot, 100);
    let x = reg.add_extra_time(&"e".to_string(), 30, 100).unwrap();
    assert_eq!(x.status, TimerStatus::Running);
    assert_eq!(x.remaining_seconds, 30);
    assert_eq!(x.end_time_unix, Some(130));
}

#[test]
fn update_label_only_keeps_timing() {
    let mut reg = AppState::new();
    let t = reg.create_timer(60, "old".to_string());
    let u = reg.update_timer(&t.id, None, Some("new".to_string())).unwrap();
    assert_eq!(u.label, "new");
    assert_eq!(u.duration_seconds, 60);
    assert_eq!(u.remaining_seconds, 60);
    assert_eq!(u.status, TimerStatus::Idle);
}

#[test]
fn update_grows_remaining_by_the_difference() {
    let mut reg = AppState::new();
    let t = reg.create_timer(60, "t".to_string());
    reg.start_timer(&t.id, 0).unwrap();
    let u = reg.update_timer(&t.id, Some(100), None).unwrap();
    assert_eq!(u.duration_seconds, 100);
    assert_eq!(u.remaining_seconds, 100);
    assert_eq!(u.end_time_unix, Some(100));
    assert_eq!(u.status, TimerStatus::Running);
}

#[test]
fn update_shrinking_running_to_zero_ends_it() {
    let mut reg = AppState::new();
    let t = reg.create_timer(60, "t".to_string());
    reg.start_timer(&t.id, 0).unwrap();
    reg.pause_timer(&t.id, 20).unwrap();
    reg.start_timer(&t.id, 20).unwrap();
    let u = reg.update_timer(&t.id, Some(10), None).unwrap();
    assert_eq!(u.status, TimerStatus::Ended);
    assert_eq!(u.remaining_seconds, 0);
    assert_eq!(u.end_time_unix, None);
}

#[test]
fn update_growing_ended_leaves_it_paused() {
    let mut reg = AppState::new();
    let mut snapshot = Vec::new();
    snapshot.push(timer("e", TimerStatus::Ended, 60, 0, None));
    reg.sync_timers(snapshot, 0);
    let u = reg.update_timer(&"e".to_string(), Some(90), None).unwrap();
    assert_eq!(u.status, TimerStatus::Paused);
    assert_eq!(u.remaining_seconds, 30);
    assert_eq!(u.end_time_unix, None);
}
