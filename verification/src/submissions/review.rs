use vstd::prelude::*;
use crate::submissions::model::SubmissionStatus;
use crate::text::{debug_text, quoted_between};

verus! {

/// Kind of notification sent to a submitter.
#[derive(Debug, Clone, Copy, PartialEq, Eq, Structural)]
pub enum NotificationType {
    Success,
    Failure,
    Info,
}

/// Events broadcast to connected clients when submissions change.
#[derive(Debug, Clone, Copy, PartialEq, Eq, Structural)]
pub enum SubmissionEvent {
    Created,
    Accepted,
    Denied,
    UnderConsideration,
    UnderReview,
    ShiftCompleted,
}

impl SubmissionEvent {
    /// The event name clients receive.
    pub fn name(&self) -> (r: &'static str)
        ensures
            *self == SubmissionEvent::Created ==> r@ == "SUBMISSION_CREATED"@,
            *self == SubmissionEvent::Accepted ==> r@ == "SUBMISSION_ACCEPTED"@,
            *self == SubmissionEvent::Denied ==> r@ == "SUBMISSION_DENIED"@,
            *self == SubmissionEvent::UnderConsideration ==> r@ == "SUBMISSION_UNDER_CONSIDERATION"@,
            *self == SubmissionEvent::UnderReview ==> r@ == "SUBMISSION_UNDER_REVIEW"@,
            *self == SubmissionEvent::ShiftCompleted ==> r@ == "SHIFT_COMPLETED"@,
    {
        match self {
            SubmissionEvent::Created => "SUBMISSION_CREATED",
            SubmissionEvent::Accepted => "SUBMISSION_ACCEPTED",
            SubmissionEvent::Denied => "SUBMISSION_DENIED",
            SubmissionEvent::UnderConsideration => "SUBMISSION_UNDER_CONSIDERATION",
            SubmissionEvent::UnderReview => "SUBMISSION_UNDER_REVIEW",
            SubmissionEvent::ShiftCompleted => "SHIFT_COMPLETED",
        }
    }
}

/// What follows a status change besides the update itself.
#[derive(Debug, Clone, Copy, PartialEq, Eq, Structural)]
pub struct ReviewEffects {
    /// Notification to the submitter, if any.
    pub notification: Option<NotificationType>,
    /// Event to broadcast, if any.
    pub event: Option<SubmissionEvent>,
    /// Whether the change counts toward the moderator's running shift.
    pub counts_toward_shift: bool,
}

/// A status reached by a moderation decision.
pub open spec fn is_review_outcome(s: SubmissionStatus) -> bool {
    s == SubmissionStatus::Accepted || s == SubmissionStatus::Denied
        || s == SubmissionStatus::UnderConsideration
}

/// A status a submission can be decided from.
pub open spec fn is_reviewable(s: SubmissionStatus) -> bool {
    s == SubmissionStatus::Pending || s == SubmissionStatus::Claimed
        || s == SubmissionStatus::UnderConsideration || s == SubmissionStatus::UnderReview
}

pub open spec fn spec_counts_toward_shift(old: SubmissionStatus, new: SubmissionStatus) -> bool {
    is_reviewable(old) && is_review_outcome(new) && old != new
}

pub open spec fn spec_notification(old: SubmissionStatus, new: SubmissionStatus) -> Option<NotificationType> {
    if is_review_outcome(new) && old != new {
        Some(
            if new == SubmissionStatus::Accepted {
                NotificationType::Success
            } else if new == SubmissionStatus::Denied {
                NotificationType::Failure
            } else {
                NotificationType::Info
            },
        )
    } else {
        None
    }
}

pub open spec fn spec_status_event(old: SubmissionStatus, new: SubmissionStatus) -> Option<SubmissionEvent> {
    if old == new {
        None
    } else if new == SubmissionStatus::Accepted {
        Some(SubmissionEvent::Accepted)
    } else if new == SubmissionStatus::Denied {
        Some(SubmissionEvent::Denied)
    } else if new == SubmissionStatus::UnderConsideration {
        Some(SubmissionEvent::UnderConsideration)
    } else if new == SubmissionStatus::UnderReview {
        Some(SubmissionEvent::UnderReview)
    } else {
        None
    }
}

pub open spec fn spec_status_effects(old: SubmissionStatus, new: SubmissionStatus) -> ReviewEffects {
    ReviewEffects {
        notification: spec_notification(old, new),
        event: spec_status_event(old, new),
        counts_toward_shift: spec_counts_toward_shift(old, new),
    }
}

/// Nothing follows besides the update.
pub open spec fn no_effects() -> ReviewEffects {
    ReviewEffects { notification: None, event: None, counts_toward_shift: false }
}

/// Whether moving a submission from `old` to `new` counts as a decision for the
/// moderator's running shift: it must leave a decidable state for a decision,
/// and actually change the status.
pub fn counts_toward_shift(old: SubmissionStatus, new: SubmissionStatus) -> (r: bool)
    ensures
        r == spec_counts_toward_shift(old, new),
{
    let from_ok = match old {
        SubmissionStatus::Pending | SubmissionStatus::Claimed
        | SubmissionStatus::UnderConsideration | SubmissionStatus::UnderReview => true,
        _ => false,
    };
    let to_ok = match new {
        SubmissionStatus::Accepted | SubmissionStatus::Denied
        | SubmissionStatus::UnderConsideration => true,
        _ => false,
    };
    from_ok && to_ok && old != new
}

/// A shift is complete once its completed count reaches its target.
pub fn shift_completed(completed_count: i32, target_count: i32) -> (r: bool)
    ensures
        r == (completed_count >= target_count),
{
    completed_count >= target_count
}

/// The side effects of a status change made by a moderator.
pub fn status_effects(old: SubmissionStatus, new: SubmissionStatus) -> (r: ReviewEffects)
    ensures
        r == spec_status_effects(old, new),
{
    let changed = old != new;
    let notification = if changed {
        match new {
            SubmissionStatus::Accepted => Some(NotificationType::Success),
            SubmissionStatus::Denied => Some(NotificationType::Failure),
            SubmissionStatus::UnderConsideration => Some(NotificationType::Info),
            _ => None,
        }
    } else {
        None
    };
    let event = if changed {
        match new {
            SubmissionStatus::Accepted => Some(SubmissionEvent::Accepted),
            SubmissionStatus::Denied => Some(SubmissionEvent::Denied),
            SubmissionStatus::UnderConsideration => Some(SubmissionEvent::UnderConsideration),
            SubmissionStatus::UnderReview => Some(SubmissionEvent::UnderReview),
            _ => None,
        }
    } else {
        None
    };
    ReviewEffects { notification, event, counts_toward_shift: counts_toward_shift(old, new) }
}


/// The notification text for a submitter when a moderator's edit moves their
/// submission on the level named `level_name` to the status `new` (accepted,
/// denied, or otherwise under consideration).
pub fn status_change_message(new: SubmissionStatus, level_name: &str) -> (r: String)
    ensures
        new == SubmissionStatus::Accepted ==> r@ == "Your submission for "@ + debug_text(level_name@) + " has been accepted!"@,
        new == SubmissionStatus::Denied ==> r@ == "Your submission for "@ + debug_text(level_name@) + " has been denied."@,
        new != SubmissionStatus::Accepted && new != SubmissionStatus::Denied ==> r@ == "Your submission for "@ + debug_text(level_name@) + " has been put under consideration."@,
{
    match new {
        SubmissionStatus::Accepted => quoted_between("Your submission for ", level_name, " has been accepted!"),
        SubmissionStatus::Denied => quoted_between("Your submission for ", level_name, " has been denied."),
        _ => quoted_between("Your submission for ", level_name, " has been put under consideration."),
    }
}

/// Nothing follows a change that leaves the status as it was; every change that
/// counts toward a shift also notifies the submitter and is broadcast, with the
/// notification matching the decision.
pub proof fn lemma_effects_follow_change(old: SubmissionStatus, new: SubmissionStatus)
    ensures
        old == new ==> spec_status_effects(old, new) == no_effects(),
        spec_counts_toward_shift(old, new) ==> {
            &&& spec_status_effects(old, new).notification is Some
            &&& spec_status_effects(old, new).event is Some
        },
        spec_status_effects(old, new).notification == Some(NotificationType::Success) <==> (old != new && new == SubmissionStatus::Accepted),
        spec_status_effects(old, new).notification == Some(NotificationType::Failure) <==> (old != new && new == SubmissionStatus::Denied),
        spec_status_effects(old, new).notification == Some(NotificationType::Info) <==> (old != new && new == SubmissionStatus::UnderConsideration),
{
}

/// A decision counts toward the moderator's shift exactly when it moves a
/// submission from pending, claimed, under consideration or under review to a
/// different status among accepted, denied and under consideration.
pub proof fn lemma_counted_transitions(old: SubmissionStatus, new: SubmissionStatus)
    ensures
        spec_counts_toward_shift(old, new) <==> ({
            &&& (old == SubmissionStatus::Pending || old == SubmissionStatus::Claimed
                || old == SubmissionStatus::UnderConsideration || old == SubmissionStatus::UnderReview)
            &&& (new == SubmissionStatus::Accepted || new == SubmissionStatus::Denied
                || new == SubmissionStatus::UnderConsideration)
            &&& old != new
        }),
        spec_status_effects(old, new).counts_toward_shift == spec_counts_toward_shift(old, new),
{
}

/// The event broadcast for each status change: none without a change; a change
/// to accepted, denied, under consideration or under review broadcasts the event
/// of that status, a change to pending or claimed none. Changes to pending,
/// claimed or under review notify nobody.
pub proof fn lemma_status_events(old: SubmissionStatus, new: SubmissionStatus)
    ensures
        old == new ==> spec_status_effects(old, new).event is None,
        old != new && new == SubmissionStatus::Accepted ==> spec_status_effects(old, new).event == Some(SubmissionEvent::Accepted),
        old != new && new == SubmissionStatus::Denied ==> spec_status_effects(old, new).event == Some(SubmissionEvent::Denied),
        old != new && new == SubmissionStatus::UnderConsideration ==> spec_status_effects(old, new).event == Some(SubmissionEvent::UnderConsideration),
        old != new && new == SubmissionStatus::UnderReview ==> spec_status_effects(old, new).event == Some(SubmissionEvent::UnderReview),
        new == SubmissionStatus::Pending || new == SubmissionStatus::Claimed ==> spec_status_effects(old, new).event is None,
        new == SubmissionStatus::Pending || new == SubmissionStatus::Claimed || new == SubmissionStatus::UnderReview
            ==> spec_status_effects(old, new).notification is None,
{
}

} // verus!
