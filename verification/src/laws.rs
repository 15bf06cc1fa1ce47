//! Laws of the timer state machine, proved once and for all inputs.

use vstd::prelude::*;
use crate::registry::{find_id, lemma_find_id, sync_spec, upsert_spec};
use crate::timer::{
    edit_spec, extend_ok, extend_spec, new_timer_spec, pause_spec, reconcile_spec, reset_spec,
    resume_spec, sat_sub, start_spec, tick_spec, timer_wf, TimerState, TimerStatus,
};

verus! {

/// Every transition preserves the invariant that the deadline is present
/// exactly while the timer runs.
pub proof fn lemma_transitions_preserve_wf(
    t: TimerState,
    now: u64,
    delta: u64,
    new_duration: Option<u64>,
    new_label: Option<String>,
)
    requires
        timer_wf(t),
    ensures
        timer_wf(start_spec(t, now)),
        timer_wf(pause_spec(t, now)),
        timer_wf(reset_spec(t)),
        timer_wf(resume_spec(t, now)),
        timer_wf(extend_spec(t, delta, now)),
        timer_wf(edit_spec(t, new_duration, new_label)),
        timer_wf(tick_spec(t, now)),
        timer_wf(reconcile_spec(t, now)),
{
}

/// A freshly created timer satisfies that invariant.
pub proof fn lemma_new_timer_wf(id: String, label: String, duration_seconds: u64)
    ensures
        timer_wf(new_timer_spec(id, label, duration_seconds)),
{
}

/// Remaining time is never negative, whatever the state.
pub proof fn lemma_remaining_nonnegative(t: TimerState)
    ensures
        t.remaining_seconds >= 0,
{
}

/// Starting is idempotent: a second `start` with no time passed in between
/// leaves the timer, and in particular its deadline, exactly as the first
/// call did.
pub proof fn lemma_start_idempotent(t: TimerState, now: u64)
    ensures
        start_spec(start_spec(t, now), now) == start_spec(t, now),
{
}

/// `start` at `t0` then `pause` at `t1` freezes the original remaining time
/// less the elapsed time, floored at zero.
pub proof fn lemma_start_pause_round_trip(t: TimerState, t0: u64, t1: u64)
    requires
        t.status != TimerStatus::Running,
        t0 + t.remaining_seconds <= u64::MAX,
        t0 <= t1,
    ensures
        pause_spec(start_spec(t, t0), t1).remaining_seconds == sat_sub(
            t.remaining_seconds,
            (t1 - t0) as u64,
        ),
        pause_spec(start_spec(t, t0), t1).status == TimerStatus::Paused,
{
}

/// Extending a timer that ran to its end revives it: it runs again, with
/// exactly the added seconds remaining and a deadline that far from now.
pub proof fn lemma_extend_revives_ended(t: TimerState, delta: u64, now: u64)
    requires
        t.status == TimerStatus::Ended,
        t.remaining_seconds == 0,
        extend_ok(t, delta, now),
    ensures
        extend_spec(t, delta, now).status == TimerStatus::Running,
        extend_spec(t, delta, now).remaining_seconds == delta,
        extend_spec(t, delta, now).end_time_unix == Some((now + delta) as u64),
{
}

/// Shrinking a running timer's duration far enough that its remaining time
/// hits zero forces it to ended, with the deadline cleared.
pub proof fn lemma_edit_shrink_ends_running(
    t: TimerState,
    new_duration: u64,
    new_label: Option<String>,
)
    requires
        t.status == TimerStatus::Running,
        t.duration_seconds - new_duration >= t.remaining_seconds,
    ensures
        edit_spec(t, Some(new_duration), new_label).status == TimerStatus::Ended,
        edit_spec(t, Some(new_duration), new_label).remaining_seconds == 0,
        edit_spec(t, Some(new_duration), new_label).end_time_unix is None,
{
}

/// Editing an ended timer's duration upward leaves it paused — never running,
/// unlike `extend`.
pub proof fn lemma_edit_grow_ended_stays_paused(
    t: TimerState,
    new_duration: u64,
    new_label: Option<String>,
)
    requires
        t.status == TimerStatus::Ended,
        new_duration > t.duration_seconds,
        t.remaining_seconds + (new_duration - t.duration_seconds) <= u64::MAX,
    ensures
        edit_spec(t, Some(new_duration), new_label).status == TimerStatus::Paused,
        edit_spec(t, Some(new_duration), new_label).end_time_unix is None,
{
}

/// Sync reconciliation: a running entity whose deadline has already passed is
/// stored as ended, with nothing remaining and the deadline cleared.
pub proof fn lemma_reconcile_past_deadline(t: TimerState, now: u64)
    requires
        t.status == TimerStatus::Running,
        t.end_time_unix matches Some(e) && e <= now,
    ensures
        reconcile_spec(t, now).status == TimerStatus::Ended,
        reconcile_spec(t, now).remaining_seconds == 0,
        reconcile_spec(t, now).end_time_unix is None,
{
}

/// Every entry of an upsert is either the inserted entity or one already
/// present.
proof fn lemma_upsert_membership(s: Seq<TimerState>, t: TimerState)
    ensures
        forall|j: int|
            0 <= j < upsert_spec(s, t).len() ==> (#[trigger] upsert_spec(s, t)[j]) == t
                || (exists|k: int| 0 <= k < s.len() && upsert_spec(s, t)[j] == s[k]),
{
    let u = upsert_spec(s, t);
    lemma_find_id(s, t.id@);
    assert forall|j: int| #![trigger u[j]] 0 <= j < u.len() implies u[j] == t || (exists|k: int|
        0 <= k < s.len() && u[j] == s[k]) by {
        if find_id(s, t.id@) == -1 {
            if j < s.len() {
                assert(u[j] == s[j]);
            } else {
                assert(u[j] == t);
            }
        } else {
            if j == find_id(s, t.id@) {
                assert(u[j] == t);
            } else {
                assert(u[j] == s[j]);
            }
        }
    }
}

/// Every entry of a sync pass comes from the accumulator or is a reconciled
/// snapshot entity.
proof fn lemma_sync_membership(acc: Seq<TimerState>, snap: Seq<TimerState>, now: u64)
    ensures
        forall|j: int|
            0 <= j < sync_spec(acc, snap, now).len() ==> (exists|k: int|
                0 <= k < acc.len() && (#[trigger] sync_spec(acc, snap, now)[j]) == acc[k])
                || (exists|k: int|
                0 <= k < snap.len() && sync_spec(acc, snap, now)[j] == reconcile_spec(
                    snap[k],
                    now,
                )),
    decreases snap.len(),
{
    let result = sync_spec(acc, snap, now);
    if snap.len() == 0 {
        assert forall|j: int| #![trigger result[j]] 0 <= j < result.len() implies (exists|k: int|
            0 <= k < acc.len() && result[j] == acc[k]) || (exists|k: int|
            0 <= k < snap.len() && result[j] == reconcile_spec(snap[k], now)) by {
            assert(result[j] == acc[j]);
        }
    } else {
        let t0 = reconcile_spec(snap[0], now);
        let acc2 = upsert_spec(acc, t0);
        let rest = snap.drop_first();
        lemma_upsert_membership(acc, t0);
        lemma_sync_membership(acc2, rest, now);
        assert(result == sync_spec(acc2, rest, now));
        assert forall|j: int| #![trigger result[j]] 0 <= j < result.len() implies (exists|k: int|
            0 <= k < acc.len() && result[j] == acc[k]) || (exists|k: int|
            0 <= k < snap.len() && result[j] == reconcile_spec(snap[k], now)) by {
            if exists|k: int| 0 <= k < acc2.len() && result[j] == acc2[k] {
                let k = choose|k: int| 0 <= k < acc2.len() && result[j] == acc2[k];
                if acc2[k] == t0 {
                    assert(result[j] == reconcile_spec(snap[0], now));
                } else {
                    assert(exists|m: int| 0 <= m < acc.len() && acc2[k] == acc[m]);
                }
            } else {
                let k = choose|k: int|
                    0 <= k < rest.len() && result[j] == reconcile_spec(rest[k], now);
                assert(rest[k] == snap[k + 1]);
                assert(result[j] == reconcile_spec(snap[k + 1], now));
            }
        }
    }
}

/// `sync` stores nothing but reconciled snapshot entities: every timer it
/// leaves in the registry is some incoming entity reconciled against `now`.
pub proof fn lemma_sync_stores_reconciled(snapshot: Seq<TimerState>, now: u64)
    ensures
        forall|j: int|
            0 <= j < sync_spec(Seq::<TimerState>::empty(), snapshot, now).len()
                ==> exists|k: int|
                0 <= k < snapshot.len() && (#[trigger] sync_spec(
                    Seq::<TimerState>::empty(),
                    snapshot,
                    now,
                )[j]) == reconcile_spec(snapshot[k], now),
{
    let result = sync_spec(Seq::<TimerState>::empty(), snapshot, now);
    lemma_sync_membership(Seq::<TimerState>::empty(), snapshot, now);
    assert forall|j: int| #![trigger result[j]] 0 <= j < result.len() implies exists|k: int|
        0 <= k < snapshot.len() && result[j] == reconcile_spec(snapshot[k], now) by {
        assert(!(exists|k: int| 0 <= k < 0 && result[j] == Seq::<TimerState>::empty()[k]));
    }
}

} // verus!
