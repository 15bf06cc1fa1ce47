//! One countdown timer and its transitions.
//!
//! A running timer stores an absolute deadline (`end_time_unix`); its
//! remaining time is re-derived from that deadline and the current wall
//! clock, with subtraction floored at zero. Every transition is described by
//! a spec function, and each executable operation is proved to realise it.

use vstd::prelude::*;

verus! {

/// Lifecycle phase of one countdown timer.
#[derive(Clone, Copy, Debug, PartialEq, Eq, Structural)]
pub enum TimerStatus {
    Idle,
    Running,
    Paused,
    Ended,
}

/// One countdown record.
///
/// `end_time_unix` is the absolute deadline in wall-clock seconds and is
/// meaningful only while `status` is `Running`. `remaining_seconds` is
/// authoritative only while the timer is not running; while it runs, the
/// field is a cache that ticks and transitions refresh from the deadline.
#[derive(Debug)]
pub struct TimerState {
    pub id: String,
    pub label: String,
    pub duration_seconds: u64,
    pub remaining_seconds: u64,
    pub status: TimerStatus,
    pub end_time_unix: Option<u64>,
}

/// The deadline is present exactly while the timer is running.
pub open spec fn timer_wf(t: TimerState) -> bool {
    (t.status == TimerStatus::Running) <==> (t.end_time_unix is Some)
}

/// Wall-clock subtraction, floored at zero.
pub open spec fn sat_sub(a: u64, b: u64) -> u64 {
    if a >= b {
        (a - b) as u64
    } else {
        0
    }
}

/// The deadline if present, else `now` (a missing deadline reads as expired).
pub open spec fn end_or_now(t: TimerState, now: u64) -> u64 {
    match t.end_time_unix {
        Some(e) => e,
        None => now,
    }
}

/// The true remaining time of a running timer, re-derived from its deadline.
pub open spec fn derived_remaining(t: TimerState, now: u64) -> u64 {
    sat_sub(end_or_now(t, now), now)
}

/// `start`: arm the deadline `now + remaining` and run; a no-op if already
/// running.
pub open spec fn start_spec(t: TimerState, now: u64) -> TimerState {
    if t.status == TimerStatus::Running {
        t
    } else {
        TimerState {
            status: TimerStatus::Running,
            end_time_unix: Some((now + t.remaining_seconds) as u64),
            ..t
        }
    }
}

/// `start` is free of overflow on this input.
pub open spec fn start_ok(t: TimerState, now: u64) -> bool {
    t.status != TimerStatus::Running ==> now + t.remaining_seconds <= u64::MAX
}

/// `pause`: freeze the derived remaining time and drop the deadline; a no-op
/// if not running.
pub open spec fn pause_spec(t: TimerState, now: u64) -> TimerState {
    if t.status != TimerStatus::Running {
        t
    } else {
        TimerState {
            remaining_seconds: derived_remaining(t, now),
            end_time_unix: None,
            status: TimerStatus::Paused,
            ..t
        }
    }
}

/// `reset`: back to idle with the full configured duration.
pub open spec fn reset_spec(t: TimerState) -> TimerState {
    TimerState {
        remaining_seconds: t.duration_seconds,
        end_time_unix: None,
        status: TimerStatus::Idle,
        ..t
    }
}

/// `resume`: re-arm a paused timer against the current wall clock; timers in
/// any other state are left untouched.
pub open spec fn resume_spec(t: TimerState, now: u64) -> TimerState {
    if t.status == TimerStatus::Paused {
        TimerState {
            status: TimerStatus::Running,
            end_time_unix: Some((now + t.remaining_seconds) as u64),
            ..t
        }
    } else {
        t
    }
}

/// `resume` is free of overflow on this input.
pub open spec fn resume_ok(t: TimerState, now: u64) -> bool {
    t.status == TimerStatus::Paused ==> now + t.remaining_seconds <= u64::MAX
}

/// `extend`: add `delta` to both the configured duration and the remaining
/// time; push a running deadline forward by the same amount; revive an ended
/// timer into a running one.
pub open spec fn extend_spec(t: TimerState, delta: u64, now: u64) -> TimerState {
    let grown = TimerState {
        duration_seconds: (t.duration_seconds + delta) as u64,
        remaining_seconds: (t.remaining_seconds + delta) as u64,
        ..t
    };
    let shifted = if grown.status == TimerStatus::Running {
        match grown.end_time_unix {
            Some(e) => TimerState { end_time_unix: Some((e + delta) as u64), ..grown },
            None => grown,
        }
    } else {
        grown
    };
    if shifted.status == TimerStatus::Ended {
        TimerState {
            end_time_unix: Some((now + shifted.remaining_seconds) as u64),
            status: TimerStatus::Running,
            ..shifted
        }
    } else {
        shifted
    }
}

/// `extend` is free of overflow on this input.
pub open spec fn extend_ok(t: TimerState, delta: u64, now: u64) -> bool {
    &&& t.duration_seconds + delta <= u64::MAX
    &&& t.remaining_seconds + delta <= u64::MAX
    &&& (t.status == TimerStatus::Running ==> (t.end_time_unix matches Some(e) ==> e + delta
        <= u64::MAX))
    &&& (t.status == TimerStatus::Ended ==> now + t.remaining_seconds + delta <= u64::MAX)
}

/// An integer clamped below at zero, as an unsigned count of seconds.
pub open spec fn clamp0(x: int) -> u64 {
    if x <= 0 {
        0
    } else {
        x as u64
    }
}

/// `edit`: optionally relabel, optionally set a new duration. A duration
/// change shifts the remaining time and a running deadline by the signed
/// difference, both clamped at zero. An ended timer with time left after the
/// change is demoted to paused — never revived to running, unlike `extend` —
/// and a timer whose remaining time hits zero is forced to ended.
pub open spec fn edit_spec(
    t: TimerState,
    new_duration: Option<u64>,
    new_label: Option<String>,
) -> TimerState {
    let relabeled = match new_label {
        Some(l) => TimerState { label: l, ..t },
        None => t,
    };
    match new_duration {
        None => relabeled,
        Some(d) => {
            let diff = d - relabeled.duration_seconds;
            let resized = TimerState {
                duration_seconds: d,
                remaining_seconds: clamp0(relabeled.remaining_seconds + diff),
                ..relabeled
            };
            let shifted = if resized.status == TimerStatus::Running {
                match resized.end_time_unix {
                    Some(e) => TimerState { end_time_unix: Some(clamp0(e + diff)), ..resized },
                    None => resized,
                }
            } else {
                resized
            };
            if shifted.status == TimerStatus::Ended && shifted.remaining_seconds > 0 {
                TimerState { status: TimerStatus::Paused, end_time_unix: None, ..shifted }
            } else if shifted.remaining_seconds == 0 {
                TimerState { status: TimerStatus::Ended, end_time_unix: None, ..shifted }
            } else {
                shifted
            }
        },
    }
}

/// `edit` is free of overflow on this input.
pub open spec fn edit_ok(t: TimerState, new_duration: Option<u64>) -> bool {
    match new_duration {
        Some(d) => d > t.duration_seconds ==> {
            let diff = d - t.duration_seconds;
            &&& t.remaining_seconds + diff <= u64::MAX
            &&& (t.status == TimerStatus::Running ==> (t.end_time_unix matches Some(e) ==> e
                + diff <= u64::MAX))
        },
        None => true,
    }
}

/// One tick of the reconciliation pass: refresh a running timer's remaining
/// time from its deadline and expire it when that reaches zero; timers in any
/// other state are left untouched.
pub open spec fn tick_spec(t: TimerState, now: u64) -> TimerState {
    if t.status != TimerStatus::Running {
        t
    } else {
        let rem = derived_remaining(t, now);
        if rem == 0 {
            TimerState {
                remaining_seconds: 0,
                status: TimerStatus::Ended,
                end_time_unix: None,
                ..t
            }
        } else {
            TimerState { remaining_seconds: rem, ..t }
        }
    }
}

/// Reconciliation applied by `sync` to one incoming entity: a running entity
/// with a deadline is re-derived against `now` — still in the future, the
/// remaining time is recomputed; already passed, the entity is forced to
/// ended with nothing remaining. Anything else is taken as given.
pub open spec fn reconcile_spec(t: TimerState, now: u64) -> TimerState {
    if t.status == TimerStatus::Running {
        match t.end_time_unix {
            Some(e) => if e > now {
                TimerState { remaining_seconds: (e - now) as u64, ..t }
            } else {
                TimerState {
                    remaining_seconds: 0,
                    status: TimerStatus::Ended,
                    end_time_unix: None,
                    ..t
                }
            },
            None => t,
        }
    } else {
        t
    }
}

/// A freshly created timer: idle, full duration remaining, no deadline.
pub open spec fn new_timer_spec(id: String, label: String, duration_seconds: u64) -> TimerState {
    TimerState {
        id: id,
        label: label,
        duration_seconds: duration_seconds,
        remaining_seconds: duration_seconds,
        status: TimerStatus::Idle,
        end_time_unix: None,
    }
}

impl TimerState {
    /// Arm the timer against the current wall clock; a no-op when running.
    pub fn start(&mut self, now: u64)
        requires
            start_ok(*old(self), now),
        ensures
            *final(self) == start_spec(*old(self), now),
    {
        if self.status == TimerStatus::Running {
            return;
        }
        self.end_time_unix = Some(now + self.remaining_seconds);
        self.status = TimerStatus::Running;
    }

    /// Freeze the derived remaining time and stop; a no-op when not running.
    pub fn pause(&mut self, now: u64)
        ensures
            *final(self) == pause_spec(*old(self), now),
    {
        if self.status != TimerStatus::Running {
            return;
        }
        let end = match self.end_time_unix {
            Some(e) => e,
            None => now,
        };
        self.remaining_seconds = if end >= now {
            end - now
        } else {
            0
        };
        self.end_time_unix = None;
        self.status = TimerStatus::Paused;
    }

    /// Back to idle with the full configured duration.
    pub fn reset(&mut self)
        ensures
            *final(self) == reset_spec(*old(self)),
    {
        self.remaining_seconds = self.duration_seconds;
        self.end_time_unix = None;
        self.status = TimerStatus::Idle;
    }

    /// Re-arm a paused timer against the current wall clock; a no-op in any
    /// other state.
    pub fn resume(&mut self, now: u64)
        requires
            resume_ok(*old(self), now),
        ensures
            *final(self) == resume_spec(*old(self), now),
    {
        if self.status == TimerStatus::Paused {
            self.end_time_unix = Some(now + self.remaining_seconds);
            self.status = TimerStatus::Running;
        }
    }

    /// Add `delta` seconds of extra time; revive an ended timer into a
    /// running one.
    pub fn extend(&mut self, delta: u64, now: u64)
        requires
            extend_ok(*old(self), delta, now),
        ensures
            *final(self) == extend_spec(*old(self), delta, now),
    {
        self.duration_seconds = self.duration_seconds + delta;
        self.remaining_seconds = self.remaining_seconds + delta;
        if self.status == TimerStatus::Running {
            if let Some(end) = self.end_time_unix {
                self.end_time_unix = Some(end + delta);
            }
        }
        if self.status == TimerStatus::Ended {
            self.end_time_unix = Some(now + self.remaining_seconds);
            self.status = TimerStatus::Running;
        }
    }

    /// Optionally relabel, optionally set a new duration; see `edit_spec`.
    pub fn edit(&mut self, new_duration: Option<u64>, new_label: Option<String>)
        requires
            edit_ok(*old(self), new_duration),
        ensures
            *final(self) == edit_spec(*old(self), new_duration, new_label),
    {
        if let Some(label) = new_label {
            self.label = label;
        }
        if let Some(d) = new_duration {
            let old_duration = self.duration_seconds;
            self.duration_seconds = d;
            if d >= old_duration {
                let grow = d - old_duration;
                self.remaining_seconds = self.remaining_seconds + grow;
                if self.status == TimerStatus::Running {
                    if let Some(end) = self.end_time_unix {
                        self.end_time_unix = Some(end + grow);
                    }
                }
            } else {
                let shrink = old_duration - d;
                self.remaining_seconds = if self.remaining_seconds >= shrink {
                    self.remaining_seconds - shrink
                } else {
                    0
                };
                if self.status == TimerStatus::Running {
                    if let Some(end) = self.end_time_unix {
                        self.end_time_unix = Some(
                            if end >= shrink {
                                end - shrink
                            } else {
                                0
                            },
                        );
                    }
                }
            }
            if self.status == TimerStatus::Ended && self.remaining_seconds > 0 {
                self.status = TimerStatus::Paused;
                self.end_time_unix = None;
            } else if self.remaining_seconds == 0 {
                self.status = TimerStatus::Ended;
                self.end_time_unix = None;
            }
        }
    }

    /// Apply sync reconciliation against the current wall clock; see
    /// `reconcile_spec`.
    pub fn reconcile(&mut self, now: u64)
        ensures
            *final(self) == reconcile_spec(*old(self), now),
    {
        if self.status == TimerStatus::Running {
            if let Some(end) = self.end_time_unix {
                if end > now {
                    self.remaining_seconds = end - now;
                } else {
                    self.remaining_seconds = 0;
                    self.status = TimerStatus::Ended;
                    self.end_time_unix = None;
                }
            }
        }
    }

    /// One reconciliation tick: refresh the remaining time from the deadline
    /// and expire the timer when it reaches zero; a no-op when not running.
    pub fn tick(&mut self, now: u64)
        ensures
            *final(self) == tick_spec(*old(self), now),
    {
        if self.status != TimerStatus::Running {
            return;
        }
        let end = match self.end_time_unix {
            Some(e) => e,
            None => now,
        };
        let remaining = if end >= now {
            end - now
        } else {
            0
        };
        self.remaining_seconds = remaining;
        if remaining == 0 {
            self.status = TimerStatus::Ended;
            self.end_time_unix = None;
        }
    }
}

impl Clone for TimerState {
    /// An exact copy of the record.
    fn clone(&self) -> (r: Self)
        ensures
            r == *self,
    {
        TimerState {
            id: self.id.clone(),
            label: self.label.clone(),
            duration_seconds: self.duration_seconds,
            remaining_seconds: self.remaining_seconds,
            status: self.status,
            end_time_unix: self.end_time_unix,
        }
    }
}

/// One per-tick report for a running timer, as handed to observers: the
/// refreshed remaining time together with the status and deadline the timer
/// holds once the tick has been applied.
#[derive(Debug)]
pub struct TickNote {
    pub id: String,
    pub remaining_seconds: u64,
    pub status: TimerStatus,
    pub end_time_unix: Option<u64>,
}

/// The report a tick emits for a running timer: the fields of the timer as
/// the tick leaves it.
pub open spec fn note_spec(t: TimerState, now: u64) -> TickNote {
    let u = tick_spec(t, now);
    TickNote {
        id: u.id,
        remaining_seconds: u.remaining_seconds,
        status: u.status,
        end_time_unix: u.end_time_unix,
    }
}

/// Seconds since the Unix epoch, read from the system clock.
///
/// Relies on `std::time::SystemTime::now` followed by
/// `duration_since(UNIX_EPOCH)` and `Duration::as_secs`. Nothing is assumed
/// of the value: it depends on the wall clock alone.
#[verifier::external_body]
pub fn unix_now() -> u64 {
    std::time::SystemTime::now()
        .duration_since(std::time::UNIX_EPOCH)
        .unwrap()
        .as_secs()
}

} // verus!
