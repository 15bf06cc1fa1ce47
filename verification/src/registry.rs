//! The registry that owns every timer, keyed by identifier, and the
//! operations callers invoke against it: create, start, pause, reset,
//! delete, extend, edit, the bulk pause/resume passes, wholesale `sync`
//! replacement, and the periodic reconciliation tick.

use vstd::prelude::*;
use crate::timer::{
    edit_ok, edit_spec, extend_ok, extend_spec, new_timer_spec, note_spec, pause_spec,
    reconcile_spec, reset_spec,
    resume_ok, resume_spec, start_ok, start_spec, tick_spec, TickNote, TimerState, TimerStatus,
};

verus! {

/// Why an operation failed: the identifier names no timer.
#[derive(Clone, Copy, Debug, PartialEq, Eq, Structural)]
pub enum TimerError {
    NotFound,
}

impl TimerError {
    /// The user-facing description of this error.
    pub fn message(&self) -> (r: &'static str)
        ensures
            r@ == "Timer not found"@,
    {
        "Timer not found"
    }
}

/// The registry of all timers. Identifiers are unique across the collection.
pub struct AppState {
    pub timers: Vec<TimerState>,
}

/// No two timers share an identifier.
pub open spec fn ids_unique(s: Seq<TimerState>) -> bool {
    forall|i: int, j: int| 0 <= i < j < s.len() ==> s[i].id@ != s[j].id@
}

/// No timer in the sequence bears this identifier.
pub open spec fn no_timer(s: Seq<TimerState>, id: Seq<char>) -> bool {
    forall|j: int| 0 <= j < s.len() ==> s[j].id@ != id
}

/// The index of the first timer bearing this identifier, or -1 if there is
/// none.
pub open spec fn find_id(s: Seq<TimerState>, id: Seq<char>) -> int
    decreases s.len(),
{
    if s.len() == 0 {
        -1
    } else if s[0].id@ == id {
        0
    } else {
        let r = find_id(s.drop_first(), id);
        if r == -1 {
            -1
        } else {
            r + 1
        }
    }
}

/// `find_id` returns -1 exactly when the identifier is absent, and otherwise
/// the first index that bears it.
pub proof fn lemma_find_id(s: Seq<TimerState>, id: Seq<char>)
    ensures
        find_id(s, id) == -1 <==> no_timer(s, id),
        find_id(s, id) != -1 ==> {
            let i = find_id(s, id);
            &&& 0 <= i < s.len()
            &&& s[i].id@ == id
            &&& forall|j: int| 0 <= j < i ==> s[j].id@ != id
        },
    decreases s.len(),
{
    if s.len() > 0 && s[0].id@ != id {
        let rest = s.drop_first();
        lemma_find_id(rest, id);
        assert(forall|j: int| 0 <= j < rest.len() ==> rest[j] == s[j + 1]);
        if find_id(rest, id) == -1 {
            assert forall|j: int| 0 <= j < s.len() implies s[j].id@ != id by {
                if j > 0 {
                    assert(s[j] == rest[j - 1]);
                }
            }
        } else {
            let r = find_id(rest, id);
            assert(s[r + 1] == rest[r]);
            assert forall|j: int| 0 <= j < r + 1 implies s[j].id@ != id by {
                if j > 0 {
                    assert(s[j] == rest[j - 1]);
                }
            }
        }
        if no_timer(s, id) {
            assert forall|j: int| 0 <= j < rest.len() implies rest[j].id@ != id by {
                assert(rest[j] == s[j + 1]);
            }
        }
    }
}

/// Replace the timer that bears this identifier, or append the entry when
/// none does.
pub open spec fn upsert_spec(s: Seq<TimerState>, t: TimerState) -> Seq<TimerState> {
    let i = find_id(s, t.id@);
    if i == -1 {
        s.push(t)
    } else {
        s.update(i, t)
    }
}

/// The index of the timer bearing `id`, scanning from the front.
fn position_of(timers: &Vec<TimerState>, id: &String) -> (r: Option<usize>)
    ensures
        match r {
            Some(i) => {
                &&& i < timers@.len()
                &&& timers@[i as int].id@ == id@
                &&& i as int == find_id(timers@, id@)
            },
            None => no_timer(timers@, id@),
        },
{
    let n = timers.len();
    let mut i: usize = 0;
    while i < n
        invariant
            i <= n,
            n == timers@.len(),
            forall|j: int| 0 <= j < i ==> timers@[j].id@ != id@,
        decreases n - i,
    {
        if timers[i].id == *id {
            proof {
                lemma_find_id(timers@, id@);
            }
            return Some(i);
        }
        i = i + 1;
    }
    proof {
        lemma_find_id(timers@, id@);
    }
    None
}

/// Replace the timer that bears `t`'s identifier, or append `t` when none
/// does.
fn upsert(timers: &mut Vec<TimerState>, t: TimerState)
    requires
        ids_unique(old(timers)@),
    ensures
        final(timers)@ == upsert_spec(old(timers)@, t),
        ids_unique(final(timers)@),
{
    let ghost orig = timers@;
    match position_of(timers, &t.id) {
        Some(i) => {
            let ghost tv = t;
            let slot = &mut timers[i];
            *slot = t;
            proof {
                assert(timers@ == orig.update(i as int, tv));
                assert forall|a: int, b: int| 0 <= a < b < timers@.len() implies timers@[a].id@
                    != timers@[b].id@ by {
                    assert(timers@[a].id@ == orig[a].id@);
                    assert(timers@[b].id@ == orig[b].id@);
                }
            }
        },
        None => {
            proof {
                lemma_find_id(timers@, t.id@);
            }
            timers.push(t);
            proof {
                assert forall|a: int, b: int| 0 <= a < b < timers@.len() implies timers@[a].id@
                    != timers@[b].id@ by {
                    if b < orig.len() {
                        assert(timers@[a] == orig[a] && timers@[b] == orig[b]);
                    } else {
                        assert(timers@[a] == orig[a]);
                    }
                }
            }
        },
    }
}

/// A new identifier for a timer.
///
/// Relies on `uuid::Uuid::new_v4`, a version-4 random UUID, rendered by
/// `to_string` in the hyphenated form, which is 36 characters long.
/// Uniqueness is statistical only, so nothing is assumed beyond the length.
#[verifier::external_body]
fn fresh_id() -> (r: String)
    ensures
        r@.len() == 36,
{
    uuid::Uuid::new_v4().to_string()
}

impl AppState {
    /// The registry as the sequence of timers it holds.
    pub open spec fn view(&self) -> Seq<TimerState> {
        self.timers@
    }

    /// The registry's invariant: identifiers are unique.
    pub open spec fn wf(&self) -> bool {
        ids_unique(self.timers@)
    }

    /// An empty registry.
    pub fn new() -> (r: Self)
        ensures
            r@ == Seq::<TimerState>::empty(),
            r.wf(),
    {
        AppState { timers: Vec::new() }
    }

    /// Create a timer: idle, with the full duration remaining and a freshly
    /// generated identifier, and store it.
    pub fn create_timer(&mut self, duration_seconds: u64, label: String) -> (r: TimerState)
        requires
            old(self).wf(),
        ensures
            final(self).wf(),
            r.label == label,
            r.duration_seconds == duration_seconds,
            r.remaining_seconds == duration_seconds,
            r.status == TimerStatus::Idle,
            r.end_time_unix is None,
            r.id@.len() == 36,
            r == new_timer_spec(r.id, label, duration_seconds),
            final(self)@ == upsert_spec(old(self)@, r),
    {
        let id = fresh_id();
        let timer = TimerState {
            id,
            label,
            duration_seconds,
            remaining_seconds: duration_seconds,
            status: TimerStatus::Idle,
            end_time_unix: None,
        };
        let out = timer.clone();
        upsert(&mut self.timers, timer);
        out
    }

    /// Start the timer bearing `id` against the current wall clock.
    pub fn start_timer(&mut self, id: &String, now: u64) -> (r: Result<TimerState, TimerError>)
        requires
            old(self).wf(),
            forall|j: int| #![trigger old(self)@[j]]
                0 <= j < old(self)@.len() && old(self)@[j].id@ == id@ ==> start_ok(
                    old(self)@[j],
                    now,
                ),
        ensures
            final(self).wf(),
            (r is Ok) <==> !no_timer(old(self)@, id@),
            r matches Err(e) ==> e == TimerError::NotFound && final(self)@ == old(self)@,
            r matches Ok(t) ==> exists|i: int|
                {
                    &&& 0 <= i < old(self)@.len()
                    &&& old(self)@[i].id@ == id@
                    &&& t == start_spec(old(self)@[i], now)
                    &&& final(self)@ == old(self)@.update(i, start_spec(old(self)@[i], now))
                },
    {
        match position_of(&self.timers, id) {
            None => Err(TimerError::NotFound),
            Some(i) => {
                let ghost orig = self.timers@;
                proof {
                    assert(old(self)@[i as int] == orig[i as int]);
                    assert(start_ok(orig[i as int], now));
                }
                let t = &mut self.timers[i];
                t.start(now);
                let out = t.clone();
                proof {
                    lemma_same_ids_unique(orig, self.timers@);
                }
                Ok(out)
            },
        }
    }

    /// Pause the timer bearing `id`, freezing its derived remaining time.
    pub fn pause_timer(&mut self, id: &String, now: u64) -> (r: Result<TimerState, TimerError>)
        requires
            old(self).wf(),
        ensures
            final(self).wf(),
            (r is Ok) <==> !no_timer(old(self)@, id@),
            r matches Err(e) ==> e == TimerError::NotFound && final(self)@ == old(self)@,
            r matches Ok(t) ==> exists|i: int|
                {
                    &&& 0 <= i < old(self)@.len()
                    &&& old(self)@[i].id@ == id@
                    &&& t == pause_spec(old(self)@[i], now)
                    &&& final(self)@ == old(self)@.update(i, pause_spec(old(self)@[i], now))
                },
    {
        match position_of(&self.timers, id) {
            None => Err(TimerError::NotFound),
            Some(i) => {
                let ghost orig = self.timers@;
                let t = &mut self.timers[i];
                t.pause(now);
                let out = t.clone();
                proof {
                    lemma_same_ids_unique(orig, self.timers@);
                }
                Ok(out)
            },
        }
    }

    /// Reset the timer bearing `id` to idle with its full duration.
    pub fn reset_timer(&mut self, id: &String) -> (r: Result<TimerState, TimerError>)
        requires
            old(self).wf(),
        ensures
            final(self).wf(),
            (r is Ok) <==> !no_timer(old(self)@, id@),
            r matches Err(e) ==> e == TimerError::NotFound && final(self)@ == old(self)@,
            r matches Ok(t) ==> exists|i: int|
                {
                    &&& 0 <= i < old(self)@.len()
                    &&& old(self)@[i].id@ == id@
                    &&& t == reset_spec(old(self)@[i])
                    &&& final(self)@ == old(self)@.update(i, reset_spec(old(self)@[i]))
                },
    {
        match position_of(&self.timers, id) {
            None => Err(TimerError::NotFound),
            Some(i) => {
                let ghost orig = self.timers@;
                let t = &mut self.timers[i];
                t.reset();
                let out = t.clone();
                proof {
                    lemma_same_ids_unique(orig, self.timers@);
                }
                Ok(out)
            },
        }
    }

    /// Remove the timer bearing `id` from the registry.
    pub fn delete_timer(&mut self, id: &String) -> (r: Result<(), TimerError>)
        requires
            old(self).wf(),
        ensures
            final(self).wf(),
            (r is Ok) <==> !no_timer(old(self)@, id@),
            r matches Err(e) ==> e == TimerError::NotFound && final(self)@ == old(self)@,
            r is Ok ==> exists|i: int|
                {
                    &&& 0 <= i < old(self)@.len()
                    &&& old(self)@[i].id@ == id@
                    &&& final(self)@ == old(self)@.remove(i)
                },
    {
        match position_of(&self.timers, id) {
            None => Err(TimerError::NotFound),
            Some(i) => {
                let ghost orig = self.timers@;
                self.timers.remove(i);
                proof {
                    assert(self.timers@ == orig.remove(i as int));
                    assert forall|a: int, b: int|
                        0 <= a < b < self.timers@.len() implies self.timers@[a].id@
                        != self.timers@[b].id@ by {
                        let ai = if a < i { a } else { a + 1 };
                        let bi = if b < i { b } else { b + 1 };
                        assert(self.timers@[a] == orig[ai] && self.timers@[b] == orig[bi]);
                    }
                }
                Ok(())
            },
        }
    }

    /// Add extra time to the timer bearing `id`; an ended timer is revived
    /// into a running one.
    pub fn add_extra_time(&mut self, id: &String, extra_seconds: u64, now: u64) -> (r: Result<
        TimerState,
        TimerError,
    >)
        requires
            old(self).wf(),
            forall|j: int| #![trigger old(self)@[j]]
                0 <= j < old(self)@.len() && old(self)@[j].id@ == id@ ==> extend_ok(
                    old(self)@[j],
                    extra_seconds,
                    now,
                ),
        ensures
            final(self).wf(),
            (r is Ok) <==> !no_timer(old(self)@, id@),
            r matches Err(e) ==> e == TimerError::NotFound && final(self)@ == old(self)@,
            r matches Ok(t) ==> exists|i: int|
                {
                    &&& 0 <= i < old(self)@.len()
                    &&& old(self)@[i].id@ == id@
                    &&& t == extend_spec(old(self)@[i], extra_seconds, now)
                    &&& final(self)@ == old(self)@.update(
                        i,
                        extend_spec(old(self)@[i], extra_seconds, now),
                    )
                },
    {
        match position_of(&self.timers, id) {
            None => Err(TimerError::NotFound),
            Some(i) => {
                let ghost orig = self.timers@;
                proof {
                    assert(old(self)@[i as int] == orig[i as int]);
                    assert(extend_ok(orig[i as int], extra_seconds, now));
                }
                let t = &mut self.timers[i];
                t.extend(extra_seconds, now);
                let out = t.clone();
                proof {
                    lemma_same_ids_unique(orig, self.timers@);
                }
                Ok(out)
            },
        }
    }

    /// Edit the timer bearing `id`: optionally relabel it, optionally set a
    /// new duration. An ended timer with time left after the change is
    /// demoted to paused, never revived to running.
    pub fn update_timer(
        &mut self,
        id: &String,
        new_duration_seconds: Option<u64>,
        new_label: Option<String>,
    ) -> (r: Result<TimerState, TimerError>)
        requires
            old(self).wf(),
            forall|j: int| #![trigger old(self)@[j]]
                0 <= j < old(self)@.len() && old(self)@[j].id@ == id@ ==> edit_ok(
                    old(self)@[j],
                    new_duration_seconds,
                ),
        ensures
            final(self).wf(),
            (r is Ok) <==> !no_timer(old(self)@, id@),
            r matches Err(e) ==> e == TimerError::NotFound && final(self)@ == old(self)@,
            r matches Ok(t) ==> exists|i: int|
                {
                    &&& 0 <= i < old(self)@.len()
                    &&& old(self)@[i].id@ == id@
                    &&& t == edit_spec(old(self)@[i], new_duration_seconds, new_label)
                    &&& final(self)@ == old(self)@.update(
                        i,
                        edit_spec(old(self)@[i], new_duration_seconds, new_label),
                    )
                },
    {
        match position_of(&self.timers, id) {
            None => Err(TimerError::NotFound),
            Some(i) => {
                let ghost orig = self.timers@;
                proof {
                    assert(old(self)@[i as int] == orig[i as int]);
                    assert(edit_ok(orig[i as int], new_duration_seconds));
                }
                let t = &mut self.timers[i];
                t.edit(new_duration_seconds, new_label);
                let out = t.clone();
                proof {
                    lemma_same_ids_unique(orig, self.timers@);
                }
                Ok(out)
            },
        }
    }
}

/// The reports one reconciliation pass emits: one per running timer, in
/// registry order, none for any other timer.
pub open spec fn tick_notes_spec(s: Seq<TimerState>, now: u64) -> Seq<TickNote>
    decreases s.len(),
{
    if s.len() == 0 {
        Seq::empty()
    } else {
        let rest = tick_notes_spec(s.drop_first(), now);
        if s[0].status == TimerStatus::Running {
            seq![note_spec(s[0], now)] + rest
        } else {
            rest
        }
    }
}

/// The reports of a pass over `s.push(t)` are those over `s` followed by
/// `t`'s report, if `t` is running.
proof fn lemma_tick_notes_push(s: Seq<TimerState>, t: TimerState, now: u64)
    ensures
        tick_notes_spec(s.push(t), now) == tick_notes_spec(s, now) + (if t.status
            == TimerStatus::Running {
            seq![note_spec(t, now)]
        } else {
            Seq::<TickNote>::empty()
        }),
    decreases s.len(),
{
    let tail = if t.status == TimerStatus::Running {
        seq![note_spec(t, now)]
    } else {
        Seq::<TickNote>::empty()
    };
    if s.len() == 0 {
        assert(s.push(t).drop_first() =~= Seq::<TimerState>::empty());
        assert(s.push(t)[0] == t);
        assert(tick_notes_spec(Seq::<TimerState>::empty(), now) == Seq::<TickNote>::empty());
        assert(tick_notes_spec(s, now) == Seq::<TickNote>::empty());
        assert(tick_notes_spec(s.push(t), now) =~= tick_notes_spec(s, now) + tail);
    } else {
        assert(s.push(t).drop_first() =~= s.drop_first().push(t));
        lemma_tick_notes_push(s.drop_first(), t, now);
        assert(s.push(t)[0] == s[0]);
        if s[0].status == TimerStatus::Running {
            assert(seq![note_spec(s[0], now)] + (tick_notes_spec(s.drop_first(), now) + tail)
                =~= (seq![note_spec(s[0], now)] + tick_notes_spec(s.drop_first(), now)) + tail);
        }
    }
}

/// Wholesale replacement from a snapshot: each incoming entity, reconciled
/// against `now`, is inserted in turn, a later entity displacing an earlier
/// one that bears the same identifier.
pub open spec fn sync_spec(acc: Seq<TimerState>, snapshot: Seq<TimerState>, now: u64) -> Seq<
    TimerState,
>
    decreases snapshot.len(),
{
    if snapshot.len() == 0 {
        acc
    } else {
        sync_spec(upsert_spec(acc, reconcile_spec(snapshot[0], now)), snapshot.drop_first(), now)
    }
}

impl AppState {
    /// Pause every running timer against the current wall clock; timers in
    /// any other state are untouched.
    pub fn pause_all_timers(&mut self, now: u64)
        requires
            old(self).wf(),
        ensures
            final(self).wf(),
            final(self)@.len() == old(self)@.len(),
            forall|i: int|
                0 <= i < old(self)@.len() ==> final(self)@[i] == pause_spec(old(self)@[i], now),
    {
        let ghost orig = self.timers@;
        let n = self.timers.len();
        let mut i: usize = 0;
        while i < n
            invariant
                i <= n,
                n == self.timers@.len(),
                self.timers@.len() == orig.len(),
                forall|j: int| 0 <= j < i ==> self.timers@[j] == pause_spec(orig[j], now),
                forall|j: int| i <= j < orig.len() ==> self.timers@[j] == orig[j],
            decreases n - i,
        {
            let t = &mut self.timers[i];
            t.pause(now);
            i = i + 1;
        }
        proof {
            assert(old(self)@ == orig);
            lemma_same_ids_unique(orig, self.timers@);
        }
    }

    /// Re-arm every paused timer against the current wall clock; timers in
    /// any other state — idle, running, or ended — are untouched.
    pub fn resume_all_timers(&mut self, now: u64)
        requires
            old(self).wf(),
            forall|j: int|
                0 <= j < old(self)@.len() ==> resume_ok(#[trigger] old(self)@[j], now),
        ensures
            final(self).wf(),
            final(self)@.len() == old(self)@.len(),
            forall|i: int|
                0 <= i < old(self)@.len() ==> final(self)@[i] == resume_spec(old(self)@[i], now),
    {
        let ghost orig = self.timers@;
        let n = self.timers.len();
        let mut i: usize = 0;
        while i < n
            invariant
                i <= n,
                n == self.timers@.len(),
                self.timers@.len() == orig.len(),
                forall|j: int| 0 <= j < orig.len() ==> resume_ok(#[trigger] orig[j], now),
                forall|j: int| 0 <= j < i ==> self.timers@[j] == resume_spec(orig[j], now),
                forall|j: int| i <= j < orig.len() ==> self.timers@[j] == orig[j],
            decreases n - i,
        {
            let t = &mut self.timers[i];
            t.resume(now);
            i = i + 1;
        }
        proof {
            assert(old(self)@ == orig);
            lemma_same_ids_unique(orig, self.timers@);
        }
    }

    /// One reconciliation pass: refresh every running timer's remaining time
    /// from its deadline, expire those that reached zero, and report one note
    /// per running timer — none for the others.
    pub fn tick_all(&mut self, now: u64) -> (notes: Vec<TickNote>)
        requires
            old(self).wf(),
        ensures
            final(self).wf(),
            final(self)@.len() == old(self)@.len(),
            forall|i: int|
                0 <= i < old(self)@.len() ==> final(self)@[i] == tick_spec(old(self)@[i], now),
            notes@ == tick_notes_spec(old(self)@, now),
    {
        let ghost orig = self.timers@;
        let mut notes: Vec<TickNote> = Vec::new();
        let n = self.timers.len();
        let mut i: usize = 0;
        while i < n
            invariant
                i <= n,
                n == self.timers@.len(),
                self.timers@.len() == orig.len(),
                forall|j: int| 0 <= j < i ==> self.timers@[j] == tick_spec(orig[j], now),
                forall|j: int| i <= j < orig.len() ==> self.timers@[j] == orig[j],
                notes@ == tick_notes_spec(orig.take(i as int), now),
            decreases n - i,
        {
            proof {
                assert(orig.take(i as int + 1) =~= orig.take(i as int).push(orig[i as int]));
                lemma_tick_notes_push(orig.take(i as int), orig[i as int], now);
            }
            if self.timers[i].status == TimerStatus::Running {
                let t = &mut self.timers[i];
                t.tick(now);
                let note = TickNote {
                    id: t.id.clone(),
                    remaining_seconds: t.remaining_seconds,
                    status: t.status,
                    end_time_unix: t.end_time_unix,
                };
                proof {
                    assert(note == note_spec(orig[i as int], now));
                }
                notes.push(note);
                proof {
                    assert(notes@ =~= tick_notes_spec(orig.take(i as int), now) + seq![
                        note_spec(orig[i as int], now),
                    ]);
                }
            } else {
                proof {
                    assert(tick_notes_spec(orig.take(i as int), now) + Seq::<TickNote>::empty()
                        =~= tick_notes_spec(orig.take(i as int), now));
                }
            }
            i = i + 1;
        }
        proof {
            assert(orig.take(orig.len() as int) =~= orig);
            assert(old(self)@ == orig);
            lemma_same_ids_unique(orig, self.timers@);
        }
        notes
    }

    /// Replace the registry's contents with the snapshot, reconciling each
    /// running entity against the current wall clock; a later snapshot entity
    /// displaces an earlier one bearing the same identifier.
    pub fn sync_timers(&mut self, timers: Vec<TimerState>, now: u64)
        ensures
            final(self).wf(),
            final(self)@ == sync_spec(Seq::<TimerState>::empty(), timers@, now),
    {
        let ghost all = timers@;
        let mut snap = timers;
        self.timers.clear();
        while snap.len() > 0
            invariant
                ids_unique(self.timers@),
                sync_spec(self.timers@, snap@, now) == sync_spec(
                    Seq::<TimerState>::empty(),
                    all,
                    now,
                ),
            decreases snap@.len(),
        {
            let ghost before = snap@;
            let mut t = snap.remove(0);
            proof {
                assert(snap@ =~= before.drop_first());
            }
            t.reconcile(now);
            upsert(&mut self.timers, t);
        }
    }
}

/// Two sequences of timers of equal length whose entries bear the same
/// identifiers position by position are unique together.
proof fn lemma_same_ids_unique(a: Seq<TimerState>, b: Seq<TimerState>)
    requires
        ids_unique(a),
        a.len() == b.len(),
        forall|j: int| 0 <= j < a.len() ==> a[j].id@ == b[j].id@,
    ensures
        ids_unique(b),
{
    assert forall|i: int, j: int| 0 <= i < j < b.len() implies b[i].id@ != b[j].id@ by {
        assert(a[i].id@ != a[j].id@);
    }
}

} // verus!
