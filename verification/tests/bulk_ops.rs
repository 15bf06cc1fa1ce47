//! Bulk operators and the periodic reconciliation pass.

use countdown_core::registry::AppState;
use countdown_core::timer::{TimerState, TimerStatus};

fn timer(id: &str, status: TimerStatus, duration: u64, remaining: u64, end: Option<u64>) -> TimerState {
    TimerState {
        id: id.to_string(),
        label: String::new(),
        duration_seconds: duration,
        remaining_seconds: remaining,
        status,
        end_time_unix: end,
    }
}

#[test]
fn pause_all_pauses_only_running_timers() {
    let mut reg = AppState::new();
    let a = reg.create_timer(60, "a".to_string());
    let b = reg.create_timer(30, "b".to_string());
    let _c = reg.create_timer(10, "c".to_string());
    reg.start_timer(&a.id, 0).unwrap();
    reg.start_timer(&b.id, 0).unwrap();
    reg.pause_timer(&b.id, 5).unwrap();
    reg.pause_all_timers(20);
    let got_a = &reg.timers[0];
    assert_eq!(got_a.status, TimerStatus::Paused);
    assert_eq!(got_a.remaining_seconds, 40);
    assert_eq!(got_a.end_time_unix, None);
    let got_b = &reg.timers[1];
    assert_eq!(got_b.status, TimerStatus::Paused);
    assert_eq!(got_b.remaining_seconds, 25);
    let got_c = &reg.timers[2];
    assert_eq!(got_c.status, TimerStatus::Idle);
    assert_eq!(got_c.remaining_seconds, 10);
}

#[test]
fn resume_all_rearms_only_paused_timers() {
    let mut reg = AppState::new();
    let mut snapshot = Vec::new();
    snapshot.push(timer("p", TimerStatus::Paused, 60, 40, None));
    snapshot.push(timer("i", TimerStatus::Idle, 30, 30, None));
    snapshot.push(timer("e", TimerStatus::Ended, 10, 0, None));
    reg.sync_timers(snapshot, 100);
    reg.resume_all_timers(100);
    let p = &reg.timers[0];
    assert_eq!(p.status, TimerStatus::Running);
    assert_eq!(p.end_time_unix, Some(140));
    assert_eq!(&reg.timers[1].status, &TimerStatus::Idle);
    assert_eq!(reg.timers[1].end_time_unix, None);
    assert_eq!(&reg.timers[2].status, &TimerStatus::Ended);
    assert_eq!(reg.timers[2].end_time_unix, None);
}

#[test]
fn sync_reconciles_past_deadline_to_ended() {
    let mut reg = AppState::new();
    let mut snapshot = Vec::new();
    snapshot.push(timer("r", TimerStatus::Running, 60, 60, Some(90)));
    reg.sync_timers(snapshot, 100);
    let got = &reg.timers[0];
    assert_eq!(got.status, TimerStatus::Ended);
    assert_eq!(got.remaining_seconds, 0);
    assert_eq!(got.end_time_unix, None);
}

#[test]
fn sync_recomputes_future_deadline_remaining() {
    let mut reg = AppState::new();
    let mut snapshot = Vec::new();
    snapshot.push(timer("r", TimerStatus::Running, 60, 7, Some(150)));
    reg.sync_timers(snapshot, 100);
    let got = &reg.timers[0];
    assert_eq!(got.status, TimerStatus::Running);
    assert_eq!(got.remaining_seconds, 50);
    assert_eq!(got.end_time_unix, Some(150));
}

#[test]
fn sync_replaces_previous_contents() {
    let mut reg = AppState::new();
    reg.create_timer(60, "gone".to_string());
    let mut snapshot = Vec::new();
    snapshot.push(timer("kept", TimerStatus::Idle, 5, 5, None));
    reg.sync_timers(snapshot, 0);
    assert_eq!(reg.timers.len(), 1);
    assert_eq!(reg.timers[0].id, "kept");
}

#[test]
fn sync_keeps_the_last_of_duplicate_ids() {
    let mut reg = AppState::new();
    let mut snapshot = Vec::new();
    snapshot.push(timer("d", TimerStatus::Idle, 5, 5, None));
    snapshot.push(timer("d", TimerStatus::Paused, 9, 4, None));
    reg.sync_timers(snapshot, 0);
    assert_eq!(reg.timers.len(), 1);
    assert_eq!(reg.timers[0].status, TimerStatus::Paused);
    assert_eq!(reg.timers[0].duration_seconds, 9);
}

#[test]
fn tick_expires_a_timer_past_its_deadline() {
    let mut reg = AppState::new();
    let t = reg.create_timer(60, "t".to_string());
    reg.start_timer(&t.id, 0).unwrap();
    let notes = reg.tick_all(61);
    let got = &reg.timers[0];
    assert_eq!(got.status, TimerStatus::Ended);
    assert_eq!(got.remaining_seconds, 0);
    assert_eq!(got.end_time_unix, None);
    assert_eq!(notes.len(), 1);
    assert_eq!(notes[0].id, t.id);
    assert_eq!(notes[0].remaining_seconds, 0);
    assert_eq!(notes[0].status, TimerStatus::Ended);
    assert_eq!(notes[0].end_time_unix, None);
}

#[test]
fn tick_refreshes_remaining_and_reports_running_timers_only() {
    let mut reg = AppState::new();
    let a = reg.create_timer(60, "a".to_string());
    let _b = reg.create_timer(30, "b".to_string());
    reg.start_timer(&a.id, 0).unwrap();
    let notes = reg.tick_all(15);
    assert_eq!(notes.len(), 1);
    assert_eq!(notes[0].id, a.id);
    assert_eq!(notes[0].remaining_seconds, 45);
    assert_eq!(notes[0].status, TimerStatus::Running);
    assert_eq!(notes[0].end_time_unix, Some(60));
    assert_eq!(reg.timers[0].remaining_seconds, 45);
    assert_eq!(reg.timers[1].remaining_seconds, 30);
}

#[test]
fn tick_emits_nothing_for_an_all_quiet_registry() {
    let mut reg = AppState::new();
    reg.create_timer(60, "a".to_string());
    let notes = reg.tick_all(10);
    assert!(notes.is_empty());
}
