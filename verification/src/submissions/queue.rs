use vstd::prelude::*;
use crate::submissions::model::{Submission, SubmissionStatus};

verus! {

/// What the queue needs to know of a submission. Timestamps are in microseconds
/// since the UNIX epoch.
#[derive(Debug, Clone, Copy)]
pub struct QueueEntry {
    pub status: SubmissionStatus,
    pub priority: bool,
    pub has_raw_footage: bool,
    pub created_at: i64,
    pub priority_at: i64,
    pub updated_at: i64,
}

/// Counts of the moderation queue.
#[derive(Debug, Clone, Copy, PartialEq, Eq, Structural)]
pub struct SubmissionQueue {
    /// Pending submissions, priority or not.
    pub submissions_in_queue: i64,
    /// Pending submissions not marked as priority.
    pub regular_submissions_in_queue: i64,
    /// Pending submissions not marked as priority and without raw footage.
    pub regular_submissions_without_raw_in_queue: i64,
    /// Pending submissions marked as priority.
    pub priority_submissions_in_queue: i64,
    /// Pending submissions marked as priority and without raw footage.
    pub priority_submissions_without_raw_in_queue: i64,
    /// Submissions under consideration.
    pub uc_submissions: i64,
    /// Last update time of the oldest pending submission, if any.
    pub oldest_submission: Option<i64>,
}

/// Where a submission stands in its queue.
#[derive(Debug, Clone, Copy, PartialEq, Eq, Structural)]
pub struct QueuePositionResponse {
    /// Position in its queue (regular or priority), counting from 1.
    pub position: i64,
    /// Whether the submission is in the priority queue.
    pub priority: bool,
}

/// `e` is ahead of `target` in the queue: both pending and in the same queue
/// (priority or regular); a submission without raw footage only waits behind
/// others without raw footage; priority submissions are ordered by when they got
/// priority, regular ones by creation.
pub open spec fn ahead_in_queue(e: QueueEntry, target: QueueEntry) -> bool {
    &&& e.status == SubmissionStatus::Pending
    &&& (target.has_raw_footage || !e.has_raw_footage)
    &&& if target.priority {
        e.priority && e.priority_at < target.priority_at
    } else {
        !e.priority && e.created_at < target.created_at
    }
}

pub open spec fn count_ahead(s: Seq<QueueEntry>, target: QueueEntry) -> nat
    decreases s.len(),
{
    if s.len() == 0 {
        0
    } else {
        count_ahead(s.drop_last(), target) + if ahead_in_queue(s.last(), target) { 1nat } else { 0nat }
    }
}

pub open spec fn count_where(s: Seq<QueueEntry>, p: spec_fn(QueueEntry) -> bool) -> nat
    decreases s.len(),
{
    if s.len() == 0 {
        0
    } else {
        count_where(s.drop_last(), p) + if p(s.last()) { 1nat } else { 0nat }
    }
}

/// Least update time among the pending entries.
pub open spec fn oldest_pending(s: Seq<QueueEntry>) -> Option<i64>
    decreases s.len(),
{
    if s.len() == 0 {
        None
    } else {
        let rest = oldest_pending(s.drop_last());
        let e = s.last();
        if e.status != SubmissionStatus::Pending {
            rest
        } else {
            match rest {
                None => Some(e.updated_at),
                Some(t) => Some(if e.updated_at < t { e.updated_at } else { t }),
            }
        }
    }
}

pub open spec fn pending_in(priority: bool, exclude_raw: bool) -> spec_fn(QueueEntry) -> bool {
    |e: QueueEntry| e.status == SubmissionStatus::Pending && e.priority == priority && (!exclude_raw || !e.has_raw_footage)
}

pub open spec fn pending() -> spec_fn(QueueEntry) -> bool {
    |e: QueueEntry| e.status == SubmissionStatus::Pending
}

pub open spec fn under_consideration() -> spec_fn(QueueEntry) -> bool {
    |e: QueueEntry| e.status == SubmissionStatus::UnderConsideration
}

/// Among `entries`, the submission `target` (pending, and itself one of the
/// entries) has at most as many entries ahead of it as its own queue holds,
/// itself not counted: its position never exceeds the size of its queue as the
/// queue counts give it (`regular_submissions_in_queue` for a regular
/// submission, `priority_submissions_in_queue` for a priority one).
pub proof fn lemma_position_within_queue(entries: Seq<QueueEntry>, target: QueueEntry)
    requires
        target.status == SubmissionStatus::Pending,
        entries.contains(target),
    ensures
        count_ahead(entries, target) + 1 <= count_where(entries, pending_in(target.priority, false)),
{
    lemma_ahead_and_self_within_queue(entries, target);
}

proof fn lemma_ahead_and_self_within_queue(s: Seq<QueueEntry>, target: QueueEntry)
    requires
        target.status == SubmissionStatus::Pending,
    ensures
        count_ahead(s, target) + (if s.contains(target) { 1int } else { 0int })
            <= count_where(s, pending_in(target.priority, false)),
    decreases s.len(),
{
    if s.len() > 0 {
        let rest = s.drop_last();
        let e = s.last();
        lemma_ahead_and_self_within_queue(rest, target);
        assert(s =~= rest.push(e));
        if e == target {
            assert(s.contains(target)) by {
                assert(s[s.len() - 1] == target);
            }
        } else {
            assert(s.contains(target) == rest.contains(target)) by {
                if s.contains(target) {
                    let i = choose|i: int| 0 <= i < s.len() && s[i] == target;
                    assert(i < s.len() - 1);
                    assert(rest[i] == target);
                }
                if rest.contains(target) {
                    let i = choose|i: int| 0 <= i < rest.len() && rest[i] == target;
                    assert(s[i] == target);
                }
            }
        }
    }
}

/// The number of entries ahead of `target` is the number of entries that are
/// pending, in the same queue as `target` (priority or regular), earlier in that
/// queue (by priority time in the priority queue, by creation otherwise) and,
/// when `target` has no raw footage, without raw footage themselves, in either
/// queue. This holds of any list of entries, whatever its length.
pub proof fn lemma_count_ahead_is_count(entries: Seq<QueueEntry>, target: QueueEntry)
    ensures
        count_ahead(entries, target) == entries.filter(|e: QueueEntry|
            e.status == SubmissionStatus::Pending
            && e.priority == target.priority
            && (if target.priority { e.priority_at < target.priority_at } else { e.created_at < target.created_at })
            && (!target.has_raw_footage ==> !e.has_raw_footage)).len(),
    decreases entries.len(),
{
    reveal(Seq::filter);
    if entries.len() > 0 {
        lemma_count_ahead_is_count(entries.drop_last(), target);
    }
}

/// A submission without raw footage never waits behind one with raw footage, in
/// either queue: leaving out every entry with raw footage does not change its
/// count of entries ahead.
pub proof fn lemma_raw_footage_never_ahead_of_unraw(entries: Seq<QueueEntry>, target: QueueEntry)
    requires
        !target.has_raw_footage,
    ensures
        count_ahead(entries, target) == count_ahead(entries.filter(|e: QueueEntry| !e.has_raw_footage), target),
    decreases entries.len(),
{
    reveal(Seq::filter);
    if entries.len() > 0 {
        let d = entries.drop_last();
        let x = entries.last();
        lemma_raw_footage_never_ahead_of_unraw(d, target);
        let fd = d.filter(|e: QueueEntry| !e.has_raw_footage);
        let f = entries.filter(|e: QueueEntry| !e.has_raw_footage);
        if !x.has_raw_footage {
            assert(f == fd.push(x));
            assert(f.drop_last() =~= fd);
        } else {
            assert(f == fd);
        }
    }
}

/// The queue counts count what their names say: pending submissions of the
/// given queue, and of them those without raw footage; and submissions under
/// consideration.
pub proof fn lemma_queue_counts_are_counts(entries: Seq<QueueEntry>, priority: bool)
    ensures
        count_where(entries, pending_in(priority, false)) == entries.filter(|e: QueueEntry|
            e.status == SubmissionStatus::Pending && e.priority == priority).len(),
        count_where(entries, pending_in(priority, true)) == entries.filter(|e: QueueEntry|
            e.status == SubmissionStatus::Pending && e.priority == priority && !e.has_raw_footage).len(),
        count_where(entries, pending()) == entries.filter(|e: QueueEntry| e.status == SubmissionStatus::Pending).len(),
        count_where(entries, under_consideration()) == entries.filter(|e: QueueEntry|
            e.status == SubmissionStatus::UnderConsideration).len(),
    decreases entries.len(),
{
    reveal(Seq::filter);
    if entries.len() > 0 {
        lemma_queue_counts_are_counts(entries.drop_last(), priority);
    }
}

/// The oldest pending time is the least update time of a pending entry, and
/// there is none exactly when no entry is pending.
pub proof fn lemma_oldest_is_least(entries: Seq<QueueEntry>)
    ensures
        oldest_pending(entries) is None ==> forall|i: int| 0 <= i < entries.len() ==> (#[trigger] entries[i]).status != SubmissionStatus::Pending,
        oldest_pending(entries) matches Some(t) ==> {
            &&& exists|i: int| 0 <= i < entries.len() && (#[trigger] entries[i]).status == SubmissionStatus::Pending && entries[i].updated_at == t
            &&& forall|i: int| 0 <= i < entries.len() && (#[trigger] entries[i]).status == SubmissionStatus::Pending ==> t <= entries[i].updated_at
        },
    decreases entries.len(),
{
    if entries.len() > 0 {
        let n = entries.len() as int;
        let d = entries.drop_last();
        let e = entries.last();
        lemma_oldest_is_least(d);
        assert(entries[n - 1] == e);
        assert forall|i: int| 0 <= i < d.len() implies #[trigger] entries[i] == d[i] by {}
        if e.status != SubmissionStatus::Pending {
            if let Some(t) = oldest_pending(d) {
                let k = choose|i: int| 0 <= i < d.len() && (#[trigger] d[i]).status == SubmissionStatus::Pending && d[i].updated_at == t;
                assert(entries[k] == d[k]);
            }
        } else {
            match oldest_pending(d) {
                None => {},
                Some(u) => {
                    let k = choose|i: int| 0 <= i < d.len() && (#[trigger] d[i]).status == SubmissionStatus::Pending && d[i].updated_at == u;
                    assert(entries[k] == d[k]);
                },
            }
        }
    }
}

/// The counts without raw footage are part of the counts of the same queue.
pub proof fn lemma_without_raw_within_queue(entries: Seq<QueueEntry>, priority: bool)
    ensures
        count_where(entries, pending_in(priority, true)) <= count_where(entries, pending_in(priority, false)),
    decreases entries.len(),
{
    if entries.len() > 0 {
        lemma_without_raw_within_queue(entries.drop_last(), priority);
    }
}

/// There is an oldest pending submission exactly when one of the two queues
/// holds a submission.
pub proof fn lemma_oldest_iff_nonempty(entries: Seq<QueueEntry>)
    ensures
        (oldest_pending(entries) is Some) <==> count_where(entries, pending_in(false, false))
            + count_where(entries, pending_in(true, false)) > 0,
    decreases entries.len(),
{
    if entries.len() > 0 {
        lemma_oldest_iff_nonempty(entries.drop_last());
    }
}

fn is_ahead(e: &QueueEntry, target: &QueueEntry) -> (r: bool)
    ensures
        r == ahead_in_queue(*e, *target),
{
    if e.status != SubmissionStatus::Pending {
        return false;
    }
    if !target.has_raw_footage && e.has_raw_footage {
        return false;
    }
    if target.priority {
        e.priority && e.priority_at < target.priority_at
    } else {
        !e.priority && e.created_at < target.created_at
    }
}

impl Submission {
    /// The queue position of the submission `target` among `entries`: one more than
    /// the number of entries ahead of it. Only pending submissions have a position.
    pub fn get_queue_position(entries: &Vec<QueueEntry>, target: &QueueEntry) -> (r: Option<QueuePositionResponse>)
        requires
            entries@.len() < i64::MAX,
        ensures
            target.status != SubmissionStatus::Pending ==> r is None,
            target.status == SubmissionStatus::Pending ==> r == Some(QueuePositionResponse {
                position: (count_ahead(entries@, *target) + 1) as i64,
                priority: target.priority,
            }),
    {
        if target.status != SubmissionStatus::Pending {
            return None;
        }
        let mut count: i64 = 0;
        let n = entries.len();
        for i in 0..n
            invariant
                n == entries@.len(),
                n < i64::MAX,
                count == count_ahead(entries@.take(i as int), *target),
                count <= i,
        {
            proof {
                assert(entries@.take(i + 1).drop_last() =~= entries@.take(i as int));
            }
            if is_ahead(&entries[i], target) {
                count = count + 1;
            }
        }
        proof {
            assert(entries@.take(n as int) =~= entries@);
        }
        Some(QueuePositionResponse { position: count + 1, priority: target.priority })
    }
}

impl SubmissionQueue {
    /// The queue counts over the submissions `entries`.
    pub fn get_queue(entries: &Vec<QueueEntry>) -> (r: Self)
        requires
            entries@.len() < i64::MAX,
        ensures
            r.submissions_in_queue == count_where(entries@, pending()),
            r.submissions_in_queue == r.regular_submissions_in_queue + r.priority_submissions_in_queue,
            r.regular_submissions_in_queue == count_where(entries@, pending_in(false, false)),
            r.regular_submissions_without_raw_in_queue == count_where(entries@, pending_in(false, true)),
            r.priority_submissions_in_queue == count_where(entries@, pending_in(true, false)),
            r.priority_submissions_without_raw_in_queue == count_where(entries@, pending_in(true, true)),
            r.uc_submissions == count_where(entries@, under_consideration()),
            r.oldest_submission == oldest_pending(entries@),
    {
        let mut total: i64 = 0;
        let mut regular: i64 = 0;
        let mut regular_no_raw: i64 = 0;
        let mut priority: i64 = 0;
        let mut priority_no_raw: i64 = 0;
        let mut uc: i64 = 0;
        let mut oldest: Option<i64> = None;
        let n = entries.len();
        for i in 0..n
            invariant
                n == entries@.len(),
                n < i64::MAX,
                total == count_where(entries@.take(i as int), pending()),
                total == regular + priority,
                regular == count_where(entries@.take(i as int), pending_in(false, false)),
                regular_no_raw == count_where(entries@.take(i as int), pending_in(false, true)),
                priority == count_where(entries@.take(i as int), pending_in(true, false)),
                priority_no_raw == count_where(entries@.take(i as int), pending_in(true, true)),
                uc == count_where(entries@.take(i as int), under_consideration()),
                oldest == oldest_pending(entries@.take(i as int)),
                total <= i && regular <= i && regular_no_raw <= i && priority <= i && priority_no_raw <= i && uc <= i,
        {
            let ghost prefix = entries@.take(i as int);
            proof {
                assert(entries@.take(i + 1).drop_last() =~= prefix);
            }
            let e = &entries[i];
            if e.status == SubmissionStatus::Pending {
                total = total + 1;
                if e.priority {
                    priority = priority + 1;
                    if !e.has_raw_footage {
                        priority_no_raw = priority_no_raw + 1;
                    }
                } else {
                    regular = regular + 1;
                    if !e.has_raw_footage {
                        regular_no_raw = regular_no_raw + 1;
                    }
                }
                oldest = match oldest {
                    None => Some(e.updated_at),
                    Some(t) => Some(if e.updated_at < t { e.updated_at } else { t }),
                };
            } else if e.status == SubmissionStatus::UnderConsideration {
                uc = uc + 1;
            }
        }
        proof {
            assert(entries@.take(n as int) =~= entries@);
        }
        SubmissionQueue {
            submissions_in_queue: total,
            regular_submissions_in_queue: regular,
            regular_submissions_without_raw_in_queue: regular_no_raw,
            priority_submissions_in_queue: priority,
            priority_submissions_without_raw_in_queue: priority_no_raw,
            uc_submissions: uc,
            oldest_submission: oldest,
        }
    }
}

} // verus!
