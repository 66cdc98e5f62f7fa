use vstd::prelude::*;
use crate::submissions::model::SubmissionStatus;

verus! {

/// A stored step in a submission's history. `timestamp` is in microseconds since
/// the UNIX epoch.
#[derive(Debug, Clone)]
pub struct SubmissionHistory {
    pub id: u128,
    pub submission_id: u128,
    pub status: SubmissionStatus,
    pub timestamp: i64,
    pub video_url: Option<String>,
    pub raw_url: Option<String>,
    pub mobile: Option<bool>,
    pub ldm_id: Option<i32>,
    pub mod_menu: Option<String>,
    pub user_notes: Option<String>,
    pub reviewer_notes: Option<String>,
    pub reviewer_id: Option<u128>,
}

/// Who handled a history step, as a viewer sees it.
#[derive(Debug, Clone)]
pub enum HistoryReviewer<U> {
    /// The moderator, resolved to the user summary `U`.
    Known(U),
    /// A moderator whose identity is withheld; the API shows a user with the nil UUID.
    Redacted,
}

/// A history step with its moderator resolved to the user summary `U`.
#[derive(Debug, Clone)]
pub struct SubmissionHistoryResolved<U> {
    pub id: u128,
    pub submission_id: u128,
    pub status: SubmissionStatus,
    pub timestamp: i64,
    pub video_url: Option<String>,
    pub raw_url: Option<String>,
    pub mobile: Option<bool>,
    pub ldm_id: Option<i32>,
    pub mod_menu: Option<String>,
    pub user_notes: Option<String>,
    pub reviewer_notes: Option<String>,
    pub reviewer: Option<HistoryReviewer<U>>,
}

/// Options of a history request.
#[derive(Debug, Clone, Copy)]
pub struct SubmissionHistoryOptions {
    pub is_record_id: Option<bool>,
}

/// What a viewer sees of the moderator of a history step. Auditors see every
/// moderator; viewers with full moderation rights see them too, except moderators
/// with base rights only, who are withheld; everyone else sees no moderator.
pub open spec fn spec_history_reviewer_view<U>(
    reviewer: Option<HistoryReviewer<U>>,
    reviewer_is_base: bool,
    full_review: bool,
    audit: bool,
) -> Option<HistoryReviewer<U>> {
    if audit {
        reviewer
    } else if full_review {
        if reviewer_is_base && reviewer is Some {
            Some(HistoryReviewer::Redacted)
        } else {
            reviewer
        }
    } else {
        None
    }
}

impl<U> SubmissionHistoryResolved<U> {
    /// Joins a history step with its moderator.
    pub fn from_data(history_row: (SubmissionHistory, Option<U>)) -> (r: Self)
        ensures
            r.id == history_row.0.id,
            r.submission_id == history_row.0.submission_id,
            r.status == history_row.0.status,
            r.timestamp == history_row.0.timestamp,
            r.video_url == history_row.0.video_url,
            r.raw_url == history_row.0.raw_url,
            r.mobile == history_row.0.mobile,
            r.ldm_id == history_row.0.ldm_id,
            r.mod_menu == history_row.0.mod_menu,
            r.user_notes == history_row.0.user_notes,
            r.reviewer_notes == history_row.0.reviewer_notes,
            r.reviewer == match history_row.1 {
                Some(u) => Some(HistoryReviewer::Known(u)),
                None => None,
            },
    {
        let (history, user) = history_row;
        SubmissionHistoryResolved {
            id: history.id,
            submission_id: history.submission_id,
            status: history.status,
            reviewer_notes: history.reviewer_notes,
            reviewer: match user {
                Some(u) => Some(HistoryReviewer::Known(u)),
                None => None,
            },
            user_notes: history.user_notes,
            timestamp: history.timestamp,
            video_url: history.video_url,
            raw_url: history.raw_url,
            mobile: history.mobile,
            ldm_id: history.ldm_id,
            mod_menu: history.mod_menu,
        }
    }

    /// What a viewer sees of a history, as `spec_history_reviewer_view` says for
    /// each step; `reviewer_is_base` tells, step by step, whether its moderator
    /// holds base moderation rights only.
    pub fn visible_to(list: &mut Vec<Self>, reviewer_is_base: &Vec<bool>, full_review: bool, audit: bool)
        requires
            reviewer_is_base@.len() == old(list)@.len(),
        ensures
            final(list)@.len() == old(list)@.len(),
            forall|i: int| 0 <= i < old(list)@.len() ==> #[trigger] final(list)@[i] == (SubmissionHistoryResolved {
                reviewer: spec_history_reviewer_view(old(list)@[i].reviewer, reviewer_is_base@[i], full_review, audit),
                ..old(list)@[i]
            }),
    {
        let n = list.len();
        for i in 0..n
            invariant
                n == old(list)@.len(),
                n == reviewer_is_base@.len(),
                list@.len() == n,
                forall|j: int| 0 <= j < i ==> #[trigger] list@[j] == (SubmissionHistoryResolved {
                    reviewer: spec_history_reviewer_view(old(list)@[j].reviewer, reviewer_is_base@[j], full_review, audit),
                    ..old(list)@[j]
                }),
                forall|j: int| i <= j < n ==> #[trigger] list@[j] == old(list)@[j],
        {
            if audit {
            } else if full_review {
                if reviewer_is_base[i] && list[i].reviewer.is_some() {
                    list[i].reviewer = Some(HistoryReviewer::Redacted);
                }
            } else {
                list[i].reviewer = None;
            }
        }
    }
}

/// Auditors see every moderator as they are; viewers with full rights but no
/// audit right see every moderator but those with base rights only, who are
/// withheld; anyone else sees no moderator. A step without moderator shows none.
pub proof fn lemma_history_reviewer_view<U>(reviewer: Option<HistoryReviewer<U>>, reviewer_is_base: bool, full_review: bool, audit: bool)
    ensures
        ({
            let v = spec_history_reviewer_view(reviewer, reviewer_is_base, full_review, audit);
            &&& audit ==> v == reviewer
            &&& !audit && !full_review ==> v is None
            &&& !audit && full_review && !reviewer_is_base ==> v == reviewer
            &&& !audit && full_review && reviewer_is_base && reviewer is Some ==> v == Some(HistoryReviewer::<U>::Redacted)
            &&& reviewer is None ==> v is None
        }),
{
}

} // verus!
