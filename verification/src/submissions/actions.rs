use vstd::prelude::*;
use crate::submissions::model::{Submission, SubmissionStatus};
use crate::submissions::review::NotificationType;
use crate::text::{debug_text, quoted_between};

verus! {

/// Notes a moderator leaves with a decision.
#[derive(Debug, Clone)]
pub struct ReviewerNotes {
    pub notes: Option<String>,
}

/// Why a moderation action is refused.
#[derive(Debug, Clone, Copy, PartialEq, Eq, Structural)]
pub enum ReviewRejection {
    AlreadyDenied,
    AlreadyUnderConsideration,
    NotClaimed,
}

impl ReviewRejection {
    /// HTTP status of the refusal: every one is a conflict with the current state.
    pub fn status_code(&self) -> (r: u16)
        ensures
            r == 409,
    {
        409
    }

    /// Message of the refusal.
    pub fn message(&self) -> (r: &'static str)
        ensures
            *self == ReviewRejection::AlreadyDenied ==> r@ == "This submission is already in the denied state!"@,
            *self == ReviewRejection::AlreadyUnderConsideration ==> r@ == "This submission is already in the under consideration state!"@,
            *self == ReviewRejection::NotClaimed ==> r@ == "This submission is not claimed!"@,
    {
        match self {
            ReviewRejection::AlreadyDenied => "This submission is already in the denied state!",
            ReviewRejection::AlreadyUnderConsideration => "This submission is already in the under consideration state!",
            ReviewRejection::NotClaimed => "This submission is not claimed!",
        }
    }
}

/// The record written when a submission is accepted. Timestamps are in
/// microseconds since the UNIX epoch.
#[derive(Debug, Clone)]
pub struct RecordData {
    pub submitted_by: u128,
    pub level_id: u128,
    pub mobile: bool,
    pub ldm_id: Option<i32>,
    pub video_url: String,
    pub raw_url: Option<String>,
    pub reviewer_id: Option<u128>,
    pub mod_menu: Option<String>,
    pub user_notes: Option<String>,
    pub reviewer_notes: Option<String>,
    pub updated_at: i64,
}

/// The history entry a decision writes. Its own id is given by the store.
/// `timestamp` is in microseconds since the UNIX epoch.
#[derive(Debug, Clone)]
pub struct DecisionLog {
    pub submission_id: u128,
    /// The record an acceptance wrote; `None` for other decisions.
    pub record_id: Option<u128>,
    pub status: SubmissionStatus,
    pub reviewer_notes: Option<String>,
    pub reviewer_id: Option<u128>,
    pub user_notes: Option<String>,
    pub timestamp: i64,
}

/// A denial or a placement under consideration: the submission afterwards, the
/// history entry written for it, the notification its submitter receives, and
/// whether it counts toward the moderator's shift.
#[derive(Debug, Clone)]
pub struct Decision {
    pub submission: Submission,
    pub history: DecisionLog,
    pub notification: NotificationType,
    pub counts_toward_shift: bool,
}

/// How an accepted submission reaches the records: `update` names the player's
/// existing record on the level, which is overwritten; otherwise a record is
/// created. The submission `remove` is then deleted, the history entry `history`
/// is written (with the id of the record written, see `DecisionLog::for_record`),
/// the submitter receives the notification `notification`, and the acceptance
/// counts toward the moderator's shift when `counts_toward_shift` says so.
#[derive(Debug, Clone)]
pub struct AcceptPlan {
    pub record: RecordData,
    pub update: Option<u128>,
    pub remove: u128,
    pub history: DecisionLog,
    pub notification: NotificationType,
    pub counts_toward_shift: bool,
}

/// A submission as one of the candidates for the next claim.
#[derive(Debug, Clone, Copy)]
pub struct ClaimCandidate {
    pub id: u128,
    pub submitted_by: u128,
    pub status: SubmissionStatus,
    pub priority: bool,
    pub priority_value: i64,
    pub created_at: i64,
}

/// A moderator may claim pending submissions of other players.
pub open spec fn claimable(c: ClaimCandidate, moderator: u128) -> bool {
    c.status == SubmissionStatus::Pending && c.submitted_by != moderator
}

/// Claim order: priority submissions first, then higher priority value, then older.
pub open spec fn claimed_before(a: ClaimCandidate, b: ClaimCandidate) -> bool {
    (a.priority && !b.priority)
        || (a.priority == b.priority && a.priority_value > b.priority_value)
        || (a.priority == b.priority && a.priority_value == b.priority_value && a.created_at < b.created_at)
}

/// A candidate the moderator may claim that belongs to `class`: priority
/// submissions for `Some(true)`, the others for `Some(false)`, any for `None`.
pub open spec fn eligible(c: ClaimCandidate, moderator: u128, class: Option<bool>) -> bool {
    claimable(c, moderator) && match class {
        Some(p) => c.priority == p,
        None => true,
    }
}

/// Some candidate is eligible in `class`.
pub open spec fn has_eligible(cs: Seq<ClaimCandidate>, moderator: u128, class: Option<bool>) -> bool {
    exists|j: int| 0 <= j < cs.len() && eligible(#[trigger] cs[j], moderator, class)
}

/// `i` is the first eligible candidate of `class` in claim order (the earliest
/// listed among equals).
pub open spec fn is_next_claim(cs: Seq<ClaimCandidate>, moderator: u128, class: Option<bool>, i: int) -> bool {
    &&& 0 <= i < cs.len()
    &&& eligible(cs[i], moderator, class)
    &&& forall|j: int| 0 <= j < i && eligible(#[trigger] cs[j], moderator, class) ==> claimed_before(cs[i], cs[j])
    &&& forall|j: int| i < j < cs.len() && eligible(#[trigger] cs[j], moderator, class) ==> !claimed_before(cs[j], cs[i])
}

/// The class a claim prefers after the moderator's last claim: the other one
/// than last time, or none in particular when there was no last claim.
pub open spec fn preferred_class(last_claim_priority: Option<bool>) -> Option<bool> {
    match last_claim_priority {
        Some(p) => Some(!p),
        None => None,
    }
}

/// The class the next claim is taken from: the preferred one when it has an
/// eligible candidate, otherwise any.
pub open spec fn claim_class(cs: Seq<ClaimCandidate>, moderator: u128, last_claim_priority: Option<bool>) -> Option<bool> {
    if has_eligible(cs, moderator, preferred_class(last_claim_priority)) {
        preferred_class(last_claim_priority)
    } else {
        None
    }
}

fn claimed_before_exec(a: &ClaimCandidate, b: &ClaimCandidate) -> (r: bool)
    ensures
        r == claimed_before(*a, *b),
{
    (a.priority && !b.priority)
        || (a.priority == b.priority && a.priority_value > b.priority_value)
        || (a.priority == b.priority && a.priority_value == b.priority_value && a.created_at < b.created_at)
}

pub open spec fn spec_reject(old: Submission, moderator: u128, notes: Option<String>, now: i64) -> Result<Submission, ReviewRejection> {
    if old.status == SubmissionStatus::Denied {
        Err(ReviewRejection::AlreadyDenied)
    } else {
        Ok(Submission {
            status: SubmissionStatus::Denied,
            reviewer_id: Some(moderator),
            reviewer_notes: notes,
            updated_at: now,
            ..old
        })
    }
}

pub open spec fn spec_under_consideration(old: Submission, moderator: u128, notes: Option<String>, now: i64) -> Result<Submission, ReviewRejection> {
    if old.status == SubmissionStatus::UnderConsideration {
        Err(ReviewRejection::AlreadyUnderConsideration)
    } else {
        Ok(Submission {
            status: SubmissionStatus::UnderConsideration,
            reviewer_id: Some(moderator),
            reviewer_notes: notes,
            updated_at: now,
            ..old
        })
    }
}

/// The history entry of a decision `status` on the submission `submission_id`.
pub open spec fn spec_decision_log(
    submission_id: u128,
    record_id: Option<u128>,
    status: SubmissionStatus,
    moderator: u128,
    notes: Option<String>,
    now: i64,
) -> DecisionLog {
    DecisionLog {
        submission_id,
        record_id,
        status,
        reviewer_notes: notes,
        reviewer_id: Some(moderator),
        user_notes: None,
        timestamp: now,
    }
}

/// A decision that succeeded: its submission, its history entry, the
/// notification of the submitter, and a count toward the shift.
pub open spec fn spec_decision(
    r: Result<Submission, ReviewRejection>,
    old: Submission,
    status: SubmissionStatus,
    notification: NotificationType,
    moderator: u128,
    notes: Option<String>,
    now: i64,
) -> Result<Decision, ReviewRejection> {
    match r {
        Err(e) => Err(e),
        Ok(s) => Ok(Decision {
            submission: s,
            history: spec_decision_log(old.id, None, status, moderator, notes, now),
            notification,
            counts_toward_shift: true,
        }),
    }
}

pub open spec fn spec_claim(old: Submission, moderator: u128, now: i64) -> Submission {
    Submission { status: SubmissionStatus::Claimed, reviewer_id: Some(moderator), updated_at: now, ..old }
}

pub open spec fn spec_unclaim(old: Submission, now: i64) -> Result<Submission, ReviewRejection> {
    if old.status == SubmissionStatus::Pending {
        Err(ReviewRejection::NotClaimed)
    } else {
        Ok(Submission {
            status: SubmissionStatus::Pending,
            reviewer_id: None,
            updated_at: now,
            ..old
        })
    }
}

fn copy_notes(notes: &Option<String>) -> (r: Option<String>)
    ensures
        r == *notes,
{
    match notes {
        Some(n) => Some(n.clone()),
        None => None,
    }
}

fn decision_log(
    submission_id: u128,
    record_id: Option<u128>,
    status: SubmissionStatus,
    moderator: u128,
    notes: Option<String>,
    now: i64,
) -> (r: DecisionLog)
    ensures
        r == spec_decision_log(submission_id, record_id, status, moderator, notes, now),
{
    DecisionLog { submission_id, record_id, status, reviewer_notes: notes, reviewer_id: Some(moderator), user_notes: None, timestamp: now }
}

impl DecisionLog {
    /// The entry with the id of the record an acceptance wrote.
    pub fn for_record(self, record_id: u128) -> (r: DecisionLog)
        ensures
            r == (DecisionLog { record_id: Some(record_id), ..self }),
    {
        DecisionLog { record_id: Some(record_id), ..self }
    }
}

impl Submission {
    /// Denies the submission `old` on behalf of `moderator`, at time `now`. A submission
    /// cannot be denied twice. A denial writes a Denied history entry with the
    /// notes, notifies the submitter of the failure (`decision_message`) and counts
    /// toward the moderator's shift.
    pub fn reject(old: Submission, moderator: u128, notes: Option<String>, now: i64) -> (r: Result<Decision, ReviewRejection>)
        ensures
            r == spec_decision(
                spec_reject(old, moderator, notes, now),
                old,
                SubmissionStatus::Denied,
                NotificationType::Failure,
                moderator,
                notes,
                now,
            ),
    {
        if old.status == SubmissionStatus::Denied {
            return Err(ReviewRejection::AlreadyDenied);
        }
        let history = decision_log(old.id, None, SubmissionStatus::Denied, moderator, copy_notes(&notes), now);
        Ok(Decision {
            submission: Submission {
                status: SubmissionStatus::Denied,
                reviewer_id: Some(moderator),
                reviewer_notes: notes,
                updated_at: now,
                ..old
            },
            history,
            notification: NotificationType::Failure,
            counts_toward_shift: true,
        })
    }

    /// Places the submission `old` under consideration on behalf of `moderator`, at time
    /// `now`; not when it already is. It writes an UnderConsideration history entry
    /// with the notes, notifies the submitter (`decision_message`, for information)
    /// and counts toward the moderator's shift.
    pub fn under_consideration(old: Submission, moderator: u128, notes: Option<String>, now: i64) -> (r: Result<Decision, ReviewRejection>)
        ensures
            r == spec_decision(
                spec_under_consideration(old, moderator, notes, now),
                old,
                SubmissionStatus::UnderConsideration,
                NotificationType::Info,
                moderator,
                notes,
                now,
            ),
    {
        if old.status == SubmissionStatus::UnderConsideration {
            return Err(ReviewRejection::AlreadyUnderConsideration);
        }
        let history = decision_log(old.id, None, SubmissionStatus::UnderConsideration, moderator, copy_notes(&notes), now);
        Ok(Decision {
            submission: Submission {
                status: SubmissionStatus::UnderConsideration,
                reviewer_id: Some(moderator),
                reviewer_notes: notes,
                updated_at: now,
                ..old
            },
            history,
            notification: NotificationType::Info,
            counts_toward_shift: true,
        })
    }

    /// `moderator` claims the submission `old` at time `now`: it is claimed and
    /// records them as its moderator.
    pub fn claim(old: Submission, moderator: u128, now: i64) -> (r: Submission)
        ensures
            r == spec_claim(old, moderator, now),
    {
        Submission { status: SubmissionStatus::Claimed, reviewer_id: Some(moderator), updated_at: now, ..old }
    }

    /// Returns the submission `old` to the queue, at time `now`: it is pending again
    /// and has no moderator. A pending submission cannot be unclaimed.
    pub fn unclaim(old: Submission, now: i64) -> (r: Result<Submission, ReviewRejection>)
        ensures
            r == spec_unclaim(old, now),
    {
        if old.status == SubmissionStatus::Pending {
            return Err(ReviewRejection::NotClaimed);
        }
        Ok(Submission {
            status: SubmissionStatus::Pending,
            reviewer_id: None,
            updated_at: now,
            ..old
        })
    }

    /// Accepts the submission `sub` on behalf of `moderator`, at time `now`: its
    /// completion becomes the player's record on the level, overwriting the record
    /// `existing_record` when there is one. The submission itself is then removed,
    /// an Accepted history entry names the record (the overwritten one, or the new
    /// one once written), the moderator and the notes, the submitter is notified of
    /// the success (`decision_message`), and the acceptance counts toward the
    /// moderator's shift.
    pub fn accept(sub: Submission, moderator: u128, notes: Option<String>, existing_record: Option<u128>, now: i64) -> (r: AcceptPlan)
        ensures
            r.update == existing_record,
            r.record == (RecordData {
                submitted_by: sub.submitted_by,
                level_id: sub.level_id,
                mobile: sub.mobile,
                ldm_id: sub.ldm_id,
                video_url: sub.video_url,
                raw_url: sub.raw_url,
                reviewer_id: Some(moderator),
                mod_menu: sub.mod_menu,
                user_notes: sub.user_notes,
                reviewer_notes: notes,
                updated_at: now,
            }),
            r.remove == sub.id,
            r.history == spec_decision_log(sub.id, existing_record, SubmissionStatus::Accepted, moderator, notes, now),
            r.notification == NotificationType::Success,
            r.counts_toward_shift,
    {
        let history = decision_log(sub.id, existing_record, SubmissionStatus::Accepted, moderator, copy_notes(&notes), now);
        let remove = sub.id;
        AcceptPlan {
            record: RecordData {
                submitted_by: sub.submitted_by,
                level_id: sub.level_id,
                mobile: sub.mobile,
                ldm_id: sub.ldm_id,
                video_url: sub.video_url,
                raw_url: sub.raw_url,
                reviewer_id: Some(moderator),
                mod_menu: sub.mod_menu,
                user_notes: sub.user_notes,
                reviewer_notes: notes,
                updated_at: now,
            },
            update: existing_record,
            remove,
            history,
            notification: NotificationType::Success,
            counts_toward_shift: true,
        }
    }

    /// Whether `user` may delete the submission `sub`: moderators with permission
    /// to decide submissions may delete any; a player only their own submission,
    /// and only while it is pending.
    pub fn may_delete(sub: &Submission, user: u128, can_decide: bool) -> (r: bool)
        ensures
            r == (can_decide || (sub.submitted_by == user && sub.status == SubmissionStatus::Pending)),
    {
        can_decide || (sub.submitted_by == user && sub.status == SubmissionStatus::Pending)
    }

    /// Picks the submission `moderator` claims next. Claims alternate between
    /// priority and other submissions when possible: after a priority claim
    /// (`last_claim_priority == Some(true)`) the first other submission in claim
    /// order is taken, after another claim the first priority one; when there is
    /// none of that kind, or no last claim, the first claimable candidate in
    /// claim order. `None` when no candidate is claimable.
    pub fn claim_highest_priority(candidates: &Vec<ClaimCandidate>, moderator: u128, last_claim_priority: Option<bool>) -> (r: Option<usize>)
        ensures
            r is None <==> !has_eligible(candidates@, moderator, None),
            r matches Some(i) ==> is_next_claim(candidates@, moderator, claim_class(candidates@, moderator, last_claim_priority), i as int),
    {
        let preferred = match last_claim_priority {
            Some(p) => Some(!p),
            None => None,
        };
        if preferred.is_some() {
            let first = Self::first_claim_in(candidates, moderator, preferred);
            if first.is_some() {
                return first;
            }
        }
        let any = Self::first_claim_in(candidates, moderator, None);
        proof {
            if any is None && has_eligible(candidates@, moderator, None) {
                let j = choose|j: int| 0 <= j < candidates@.len() && eligible(#[trigger] candidates@[j], moderator, None);
                assert(!eligible(candidates@[j], moderator, None));
            }
            if has_eligible(candidates@, moderator, preferred_class(last_claim_priority)) && preferred is Some {
                let j = choose|j: int| 0 <= j < candidates@.len() && eligible(#[trigger] candidates@[j], moderator, preferred_class(last_claim_priority));
                assert(eligible(candidates@[j], moderator, None));
            }
        }
        any
    }

    /// The first eligible candidate of `class` in claim order, if any.
    fn first_claim_in(candidates: &Vec<ClaimCandidate>, moderator: u128, class: Option<bool>) -> (r: Option<usize>)
        ensures
            r is None ==> forall|j: int| 0 <= j < candidates@.len() ==> !eligible(#[trigger] candidates@[j], moderator, class),
            r matches Some(i) ==> is_next_claim(candidates@, moderator, class, i as int),
    {
        let mut best: Option<usize> = None;
        let n = candidates.len();
        for k in 0..n
            invariant
                n == candidates@.len(),
                best is None ==> forall|j: int| 0 <= j < k ==> !eligible(#[trigger] candidates@[j], moderator, class),
                best matches Some(b) ==> {
                    &&& b < k
                    &&& eligible(candidates@[b as int], moderator, class)
                    &&& forall|j: int| 0 <= j < b && eligible(#[trigger] candidates@[j], moderator, class) ==> claimed_before(candidates@[b as int], candidates@[j])
                    &&& forall|j: int| b < j < k && eligible(#[trigger] candidates@[j], moderator, class) ==> !claimed_before(candidates@[j], candidates@[b as int])
                },
        {
            let c = &candidates[k];
            let in_class = match class {
                Some(p) => c.priority == p,
                None => true,
            };
            if c.status == SubmissionStatus::Pending && c.submitted_by != moderator && in_class {
                match best {
                    None => {
                        best = Some(k);
                    },
                    Some(b) => {
                        if claimed_before_exec(c, &candidates[b]) {
                            proof {
                                assert forall|j: int| 0 <= j < k && eligible(#[trigger] candidates@[j], moderator, class)
                                    implies claimed_before(candidates@[k as int], candidates@[j]) by {
                                    if j != b {
                                        if j < b {
                                            assert(claimed_before(candidates@[b as int], candidates@[j]));
                                        } else {
                                            assert(!claimed_before(candidates@[j], candidates@[b as int]));
                                        }
                                    }
                                }
                            }
                            best = Some(k);
                        }
                    },
                }
            }
        }
        best
    }
}

/// The notification text for a submitter when their submission on the level named
/// `level_name` is accepted, denied or placed under consideration.
pub fn decision_message(kind: NotificationType, level_name: &str) -> (r: String)
    ensures
        kind == NotificationType::Success ==> r@ == "Your submissions for "@ + debug_text(level_name@) + " has been accepted!"@,
        kind == NotificationType::Failure ==> r@ == "Your submission for "@ + debug_text(level_name@) + " has been denied."@,
        kind == NotificationType::Info ==> r@ == "Your submission for "@ + debug_text(level_name@) + " has been placed under consideration."@,
{
    match kind {
        NotificationType::Success => quoted_between("Your submissions for ", level_name, " has been accepted!"),
        NotificationType::Failure => quoted_between("Your submission for ", level_name, " has been denied."),
        NotificationType::Info => quoted_between("Your submission for ", level_name, " has been placed under consideration."),
    }
}

/// A denied submission cannot be denied again, whoever tries and whenever.
pub proof fn lemma_reject_twice(old: Submission, moderator: u128, notes: Option<String>, now: i64, moderator2: u128, notes2: Option<String>, later: i64)
    ensures
        spec_reject(old, moderator, notes, now) matches Ok(s) ==> spec_reject(s, moderator2, notes2, later) == Err::<Submission, ReviewRejection>(ReviewRejection::AlreadyDenied),
{
}

/// A submission under consideration cannot be placed under consideration again.
pub proof fn lemma_under_consideration_twice(old: Submission, moderator: u128, notes: Option<String>, now: i64, moderator2: u128, notes2: Option<String>, later: i64)
    ensures
        spec_under_consideration(old, moderator, notes, now) matches Ok(s) ==> spec_under_consideration(s, moderator2, notes2, later) == Err::<Submission, ReviewRejection>(ReviewRejection::AlreadyUnderConsideration),
{
}

/// An unclaimed submission is back in the queue without moderator, and cannot be
/// unclaimed again.
pub proof fn lemma_unclaim_twice(old: Submission, now: i64, later: i64)
    ensures
        spec_unclaim(old, now) matches Ok(s) ==> {
            &&& s.status == SubmissionStatus::Pending
            &&& s.reviewer_id is None
            &&& spec_unclaim(s, later) == Err::<Submission, ReviewRejection>(ReviewRejection::NotClaimed)
        },
{
}

/// Claiming a pending submission and unclaiming it again gives back the
/// submission as it was, but for its update time.
pub proof fn lemma_claim_then_unclaim(old: Submission, moderator: u128, now: i64, later: i64)
    requires
        old.status == SubmissionStatus::Pending,
        old.reviewer_id is None,
    ensures
        spec_unclaim(spec_claim(old, moderator, now), later) == Ok::<Submission, ReviewRejection>(Submission { updated_at: later, ..old }),
{
}

/// A denial or a placement under consideration is refused only when the
/// submission already has that status; otherwise it sets the status, records the
/// moderator, the notes and the time, keeps everything else of the submission,
/// writes a history entry of the same decision for that submission with the same
/// moderator, notes and time, notifies the submitter (failure for a denial,
/// information otherwise) and counts toward the shift.
pub proof fn lemma_decisions(old: Submission, moderator: u128, notes: Option<String>, now: i64, deny: bool)
    ensures
        ({
            let status = if deny { SubmissionStatus::Denied } else { SubmissionStatus::UnderConsideration };
            let kind = if deny { NotificationType::Failure } else { NotificationType::Info };
            let r = if deny {
                spec_decision(spec_reject(old, moderator, notes, now), old, status, kind, moderator, notes, now)
            } else {
                spec_decision(spec_under_consideration(old, moderator, notes, now), old, status, kind, moderator, notes, now)
            };
            &&& (r is Err <==> old.status == status)
            &&& (deny && old.status == status ==> r == Err::<Decision, ReviewRejection>(ReviewRejection::AlreadyDenied))
            &&& (!deny && old.status == status ==> r == Err::<Decision, ReviewRejection>(ReviewRejection::AlreadyUnderConsideration))
            &&& r matches Ok(d) ==> {
                &&& d.submission.status == status
                &&& d.submission.reviewer_id == Some(moderator)
                &&& d.submission.reviewer_notes == notes
                &&& d.submission.updated_at == now
                &&& d.submission.id == old.id && d.submission.submitted_by == old.submitted_by
                &&& d.submission.level_id == old.level_id && d.submission.video_url == old.video_url
                &&& d.submission.raw_url == old.raw_url && d.submission.user_notes == old.user_notes
                &&& d.submission.priority == old.priority && d.submission.locked == old.locked
                &&& d.submission.created_at == old.created_at
                &&& d.history.submission_id == old.id
                &&& d.history.record_id is None
                &&& d.history.status == status
                &&& d.history.reviewer_id == Some(moderator)
                &&& d.history.reviewer_notes == notes
                &&& d.history.user_notes is None
                &&& d.history.timestamp == now
                &&& d.notification == kind
                &&& d.counts_toward_shift
            }
        }),
{
}

/// Claiming sets the claimed status, the moderator and the time and keeps the
/// rest; unclaiming is refused only for a pending submission and otherwise makes
/// it pending without moderator, at the given time, keeping the rest.
pub proof fn lemma_claim_and_unclaim(old: Submission, moderator: u128, now: i64)
    ensures
        ({
            let c = spec_claim(old, moderator, now);
            &&& c.status == SubmissionStatus::Claimed && c.reviewer_id == Some(moderator) && c.updated_at == now
            &&& c.id == old.id && c.submitted_by == old.submitted_by && c.reviewer_notes == old.reviewer_notes
        }),
        (spec_unclaim(old, now) is Err) <==> old.status == SubmissionStatus::Pending,
        spec_unclaim(old, now) matches Ok(u) ==> {
            &&& u.status == SubmissionStatus::Pending && u.reviewer_id is None && u.updated_at == now
            &&& u.id == old.id && u.submitted_by == old.submitted_by && u.reviewer_notes == old.reviewer_notes
        },
{
}

/// The claim taken comes first in claim order among the candidates of its class:
/// a priority submission before any other, then a higher priority value, then an
/// older one; and it belongs to the moderator's preferred class whenever that
/// class has a candidate. It is never the moderator's own submission and is
/// always pending.
pub proof fn lemma_claim_order(cs: Seq<ClaimCandidate>, moderator: u128, last_claim_priority: Option<bool>, i: int)
    requires
        is_next_claim(cs, moderator, claim_class(cs, moderator, last_claim_priority), i),
    ensures
        cs[i].status == SubmissionStatus::Pending,
        cs[i].submitted_by != moderator,
        last_claim_priority matches Some(p) ==> ((exists|j: int| 0 <= j < cs.len() && (#[trigger] cs[j]).status == SubmissionStatus::Pending
            && cs[j].submitted_by != moderator && cs[j].priority != p) ==> cs[i].priority != p),
        forall|j: int| 0 <= j < cs.len() && (#[trigger] cs[j]).status == SubmissionStatus::Pending && cs[j].submitted_by != moderator
            && (claim_class(cs, moderator, last_claim_priority) is None || cs[j].priority == cs[i].priority) ==> {
            &&& (cs[j].priority ==> cs[i].priority)
            &&& (cs[j].priority == cs[i].priority ==> cs[i].priority_value >= cs[j].priority_value)
            &&& (cs[j].priority == cs[i].priority && cs[j].priority_value == cs[i].priority_value ==> cs[i].created_at <= cs[j].created_at)
        },
{
    if let Some(p) = last_claim_priority {
        if exists|j: int| 0 <= j < cs.len() && (#[trigger] cs[j]).status == SubmissionStatus::Pending
            && cs[j].submitted_by != moderator && cs[j].priority != p {
            let j = choose|j: int| 0 <= j < cs.len() && (#[trigger] cs[j]).status == SubmissionStatus::Pending
                && cs[j].submitted_by != moderator && cs[j].priority != p;
            assert(eligible(cs[j], moderator, preferred_class(last_claim_priority)));
        }
    }
    assert forall|j: int| 0 <= j < cs.len() && (#[trigger] cs[j]).status == SubmissionStatus::Pending && cs[j].submitted_by != moderator
        && (claim_class(cs, moderator, last_claim_priority) is None || cs[j].priority == cs[i].priority) implies {
        &&& (cs[j].priority ==> cs[i].priority)
        &&& (cs[j].priority == cs[i].priority ==> cs[i].priority_value >= cs[j].priority_value)
        &&& (cs[j].priority == cs[i].priority && cs[j].priority_value == cs[i].priority_value ==> cs[i].created_at <= cs[j].created_at)
    } by {
        assert(eligible(cs[j], moderator, claim_class(cs, moderator, last_claim_priority)));
        if j < i {
            assert(claimed_before(cs[i], cs[j]));
        } else if j > i {
            assert(!claimed_before(cs[j], cs[i]));
        }
    }
}

} // verus!
