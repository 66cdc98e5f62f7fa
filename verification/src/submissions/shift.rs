use vstd::prelude::*;
use crate::submissions::model::SubmissionStatus;
use crate::submissions::review::{counts_toward_shift, spec_counts_toward_shift};

verus! {

/// What the shift logic reads of a moderator's shift. `running` is whether the
/// shift's status is running; times are microseconds since the UNIX epoch.
#[derive(Debug, Clone, Copy, PartialEq, Eq, Structural)]
pub struct Shift {
    pub id: u128,
    pub running: bool,
    pub start_at: i64,
    pub end_at: i64,
    pub completed_count: i32,
    pub target_count: i32,
}

/// What a decision does to the moderator's shifts.
#[derive(Debug, Clone, Copy, PartialEq, Eq, Structural)]
pub enum ShiftUpdate {
    /// The decision does not count toward a shift.
    NotCounted,
    /// The decision counts, but no shift of the moderator runs now.
    NoRunningShift,
    /// The shift at `index` becomes `shift`; `completed` says whether this
    /// decision completed it (the completed shift is then announced).
    Counted { index: usize, shift: Shift, completed: bool },
    /// The running shift's count cannot grow any further, which the stored
    /// integer column refuses as well.
    CountFull { index: usize },
}

/// A shift that is running at `now`: its status is running and `now` lies in
/// `[start_at, end_at)`.
pub open spec fn runs_at(s: Shift, now: i64) -> bool {
    s.running && s.start_at <= now && now < s.end_at
}

/// `i` is the shift a decision counts toward: running at `now`, started no later
/// than any other shift running at `now`, and listed first among those started at
/// the same time.
pub open spec fn is_current_shift(shifts: Seq<Shift>, now: i64, i: int) -> bool {
    &&& 0 <= i < shifts.len()
    &&& runs_at(shifts[i], now)
    &&& forall|j: int| 0 <= j < shifts.len() && runs_at(#[trigger] shifts[j], now) ==> shifts[i].start_at <= shifts[j].start_at
    &&& forall|j: int| 0 <= j < i && runs_at(#[trigger] shifts[j], now) ==> shifts[i].start_at < shifts[j].start_at
}

/// A shift after one more decision: its count grows by one, and once the count
/// reaches the target the shift is completed and no longer running.
pub open spec fn spec_counted(s: Shift) -> Shift {
    Shift {
        completed_count: (s.completed_count + 1) as i32,
        running: s.running && s.completed_count + 1 < s.target_count,
        ..s
    }
}

/// What one counted decision at `now` does to `shifts`, given the current shift.
pub open spec fn spec_count_update(shifts: Seq<Shift>, i: Option<usize>) -> ShiftUpdate {
    match i {
        None => ShiftUpdate::NoRunningShift,
        Some(i) => if shifts[i as int].completed_count == i32::MAX {
            ShiftUpdate::CountFull { index: i }
        } else {
            ShiftUpdate::Counted {
                index: i,
                shift: spec_counted(shifts[i as int]),
                completed: shifts[i as int].completed_count + 1 >= shifts[i as int].target_count,
            }
        },
    }
}

impl Shift {
    /// The shift of a moderator that a decision made at `now` counts toward: the
    /// earliest started of their shifts running at `now`, or `None` when none runs.
    pub fn current(shifts: &Vec<Shift>, now: i64) -> (r: Option<usize>)
        ensures
            r is None ==> forall|j: int| 0 <= j < shifts@.len() ==> !runs_at(#[trigger] shifts@[j], now),
            r matches Some(i) ==> is_current_shift(shifts@, now, i as int),
    {
        let mut best: Option<usize> = None;
        let n = shifts.len();
        for k in 0..n
            invariant
                n == shifts@.len(),
                best is None ==> forall|j: int| 0 <= j < k ==> !runs_at(#[trigger] shifts@[j], now),
                best matches Some(b) ==> {
                    &&& b < k
                    &&& runs_at(shifts@[b as int], now)
                    &&& forall|j: int| 0 <= j < k && runs_at(#[trigger] shifts@[j], now) ==> shifts@[b as int].start_at <= shifts@[j].start_at
                    &&& forall|j: int| 0 <= j < b && runs_at(#[trigger] shifts@[j], now) ==> shifts@[b as int].start_at < shifts@[j].start_at
                },
        {
            let s = &shifts[k];
            if s.running && s.start_at <= now && now < s.end_at {
                match best {
                    None => {
                        best = Some(k);
                    },
                    Some(b) => {
                        if s.start_at < shifts[b].start_at {
                            best = Some(k);
                        }
                    },
                }
            }
        }
        best
    }

    /// A decision made at `now` by the moderator whose shifts are `shifts` (denial,
    /// acceptance, placing under consideration): it counts toward their current
    /// shift, which is completed once its count reaches the target.
    pub fn count_decision(shifts: &Vec<Shift>, now: i64) -> (r: ShiftUpdate)
        ensures
            (forall|j: int| 0 <= j < shifts@.len() ==> !runs_at(#[trigger] shifts@[j], now)) ==> r == ShiftUpdate::NoRunningShift,
            forall|i: usize| is_current_shift(shifts@, now, i as int) ==> r == spec_count_update(shifts@, Some(i)),
    {
        match Self::current(shifts, now) {
            None => ShiftUpdate::NoRunningShift,
            Some(i) => {
                proof {
                    assert forall|j: usize| is_current_shift(shifts@, now, j as int) implies j == i by {
                        lemma_current_shift_unique(shifts@, now, i as int, j as int);
                    }
                }
                let s = shifts[i];
                if s.completed_count == i32::MAX {
                    return ShiftUpdate::CountFull { index: i };
                }
                let count = s.completed_count + 1;
                let completed = count >= s.target_count;
                ShiftUpdate::Counted {
                    index: i,
                    shift: Shift { completed_count: count, running: s.running && !completed, ..s },
                    completed,
                }
            },
        }
    }

    /// A moderator's edit at `now` that moves a submission from `old` to `new`:
    /// it counts toward their current shift exactly when `counts_toward_shift`
    /// says so, as `count_decision` describes.
    pub fn after_status_change(old: SubmissionStatus, new: SubmissionStatus, shifts: &Vec<Shift>, now: i64) -> (r: ShiftUpdate)
        ensures
            !spec_counts_toward_shift(old, new) ==> r == ShiftUpdate::NotCounted,
            spec_counts_toward_shift(old, new) && (forall|j: int| 0 <= j < shifts@.len() ==> !runs_at(#[trigger] shifts@[j], now))
                ==> r == ShiftUpdate::NoRunningShift,
            forall|i: usize| spec_counts_toward_shift(old, new) && is_current_shift(shifts@, now, i as int)
                ==> r == spec_count_update(shifts@, Some(i)),
    {
        if !counts_toward_shift(old, new) {
            return ShiftUpdate::NotCounted;
        }
        Self::count_decision(shifts, now)
    }
}

/// At most one shift is the current one at a time.
pub proof fn lemma_current_shift_unique(shifts: Seq<Shift>, now: i64, i: int, j: int)
    requires
        is_current_shift(shifts, now, i),
        is_current_shift(shifts, now, j),
    ensures
        i == j,
{
    if i < j {
        assert(runs_at(shifts[i], now));
    }
    if j < i {
        assert(runs_at(shifts[j], now));
    }
}

/// A counted decision changes only the current shift, by one in its count; the
/// shift is announced as completed exactly when its count reaches the target, and
/// a completed shift no longer runs.
pub proof fn lemma_count_update(shifts: Seq<Shift>, now: i64, i: usize)
    requires
        is_current_shift(shifts, now, i as int),
        shifts[i as int].completed_count < i32::MAX,
    ensures
        spec_count_update(shifts, Some(i)) matches ShiftUpdate::Counted { index, shift, completed } && {
            &&& index == i
            &&& shift.id == shifts[i as int].id
            &&& shift.completed_count == shifts[i as int].completed_count + 1
            &&& shift.target_count == shifts[i as int].target_count
            &&& completed == (shift.completed_count >= shift.target_count)
            &&& shift.running == !completed
        },
{
}

/// The current shift is one whose status is running and whose window
/// `[start_at, end_at)` holds `now`, and no other such shift started earlier.
pub proof fn lemma_current_shift_is_earliest_running(shifts: Seq<Shift>, now: i64, i: int)
    requires
        is_current_shift(shifts, now, i),
    ensures
        shifts[i].running && shifts[i].start_at <= now && now < shifts[i].end_at,
        forall|j: int| 0 <= j < shifts.len() && (#[trigger] shifts[j]).running && shifts[j].start_at <= now && now < shifts[j].end_at
            ==> shifts[i].start_at <= shifts[j].start_at,
{
    assert forall|j: int| 0 <= j < shifts.len() && (#[trigger] shifts[j]).running && shifts[j].start_at <= now && now < shifts[j].end_at
        implies shifts[i].start_at <= shifts[j].start_at by {
        assert(runs_at(shifts[j], now));
    }
}

} // verus!
