use vstd::prelude::*;

verus! {

/// Where a submission stands in moderation.
#[derive(Debug, Clone, Copy, PartialEq, Eq, Structural, Default)]
pub enum SubmissionStatus {
    #[default]
    Pending,
    Claimed,
    UnderConsideration,
    Denied,
    Accepted,
    UnderReview,
}

/// A stored submission. Identifiers are the 128-bit values of UUIDs and
/// timestamps are microseconds since the UNIX epoch.
#[derive(Debug, Clone)]
pub struct Submission {
    pub id: u128,
    pub level_id: u128,
    pub submitted_by: u128,
    pub mobile: bool,
    pub ldm_id: Option<i32>,
    pub video_url: String,
    pub raw_url: Option<String>,
    pub mod_menu: Option<String>,
    pub status: SubmissionStatus,
    pub reviewer_id: Option<u128>,
    pub priority: bool,
    pub reviewer_notes: Option<String>,
    pub user_notes: Option<String>,
    pub private_reviewer_notes: Option<String>,
    pub locked: bool,
    pub created_at: i64,
    pub updated_at: i64,
}

} // verus!
