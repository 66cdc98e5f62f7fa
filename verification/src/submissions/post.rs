use vstd::prelude::*;
use crate::levels::model::LevelStatus;
use crate::submissions::model::{Submission, SubmissionStatus};
use crate::submissions::review::SubmissionEvent;

verus! {

/// A new submission sent by a player.
#[derive(Debug, Clone)]
pub struct SubmissionPostUser {
    pub level_id: u128,
    pub mobile: bool,
    pub ldm_id: Option<i32>,
    pub video_url: String,
    pub raw_url: Option<String>,
    pub mod_menu: Option<String>,
    pub user_notes: Option<String>,
}

/// A new submission sent by a moderator, who may submit for someone else and set
/// the moderator fields.
#[derive(Debug, Clone)]
pub struct SubmissionPostMod {
    pub submitted_by: Option<u128>,
    pub level_id: u128,
    pub mobile: bool,
    pub ldm_id: Option<i32>,
    pub video_url: String,
    pub raw_url: Option<String>,
    pub mod_menu: Option<String>,
    pub user_notes: Option<String>,
    pub priority: Option<bool>,
    pub status: Option<SubmissionStatus>,
    pub reviewer_notes: Option<String>,
}

/// The row written for a new submission.
#[derive(Debug, Clone)]
pub struct SubmissionInsert {
    pub submitted_by: u128,
    pub level_id: u128,
    pub mobile: bool,
    pub ldm_id: Option<i32>,
    pub video_url: String,
    pub raw_url: Option<String>,
    pub mod_menu: Option<String>,
    pub user_notes: Option<String>,
    pub priority: bool,
    pub status: SubmissionStatus,
    pub reviewer_notes: Option<String>,
    pub reviewer_id: Option<u128>,
}

/// A submission that may be written, and the event announcing it to connected
/// clients.
#[derive(Debug, Clone)]
pub struct NewSubmission {
    pub insert: SubmissionInsert,
    pub event: SubmissionEvent,
}

/// What is stored about the level a submission is for.
#[derive(Debug, Clone, Copy)]
pub struct LevelInfo {
    pub status: LevelStatus,
    pub position: Option<i32>,
    pub requires_raw_footage: bool,
}

/// What the stored data says about a new submission.
#[derive(Debug, Clone, Copy)]
pub struct CreateContext {
    /// Whether submissions are currently open.
    pub submissions_enabled: bool,
    /// Whether the submitter already has a submission for this level.
    pub already_submitted: bool,
    /// The level, if it exists.
    pub level: Option<LevelInfo>,
}

/// Why a new submission is refused.
#[derive(Debug, Clone, Copy, PartialEq, Eq, Structural)]
pub enum CreateRejection {
    SubmissionsDisabled,
    AlreadySubmitted,
    LevelNotFound,
    LegacyLevel,
    RemovedLevel,
    RawFootageRequired,
}

pub open spec fn spec_create_rejection_status(r: CreateRejection) -> u16 {
    match r {
        CreateRejection::SubmissionsDisabled => 400,
        CreateRejection::AlreadySubmitted => 409,
        CreateRejection::LevelNotFound => 404,
        CreateRejection::LegacyLevel => 400,
        CreateRejection::RemovedLevel => 410,
        CreateRejection::RawFootageRequired => 400,
    }
}

impl CreateRejection {
    /// HTTP status of the refusal.
    pub fn status_code(&self) -> (r: u16)
        ensures
            r == spec_create_rejection_status(*self),
    {
        match self {
            CreateRejection::SubmissionsDisabled => 400,
            CreateRejection::AlreadySubmitted => 409,
            CreateRejection::LevelNotFound => 404,
            CreateRejection::LegacyLevel => 400,
            CreateRejection::RemovedLevel => 410,
            CreateRejection::RawFootageRequired => 400,
        }
    }

    /// Message of the refusal.
    pub fn message(&self) -> (r: &'static str)
        ensures
            *self == CreateRejection::SubmissionsDisabled ==> r@ == "Submissions are currently disabled"@,
            *self == CreateRejection::AlreadySubmitted ==> r@ == "You already have a submission for this level"@,
            *self == CreateRejection::LevelNotFound ==> r@ == "Could not find this level"@,
            *self == CreateRejection::LegacyLevel ==> r@ == "This level is on the legacy list and is not accepting records."@,
            *self == CreateRejection::RemovedLevel ==> r@ == "This level has been removed from the list."@,
            *self == CreateRejection::RawFootageRequired ==> r@ == "This level is top 400 and requires raw footage"@,
    {
        match self {
            CreateRejection::SubmissionsDisabled => "Submissions are currently disabled",
            CreateRejection::AlreadySubmitted => "You already have a submission for this level",
            CreateRejection::LevelNotFound => "Could not find this level",
            CreateRejection::LegacyLevel => "This level is on the legacy list and is not accepting records.",
            CreateRejection::RemovedLevel => "This level has been removed from the list.",
            CreateRejection::RawFootageRequired => "This level is top 400 and requires raw footage",
        }
    }
}

pub open spec fn spec_post_downgrade(b: SubmissionPostMod) -> SubmissionPostUser {
    SubmissionPostUser {
        level_id: b.level_id,
        mobile: b.mobile,
        ldm_id: b.ldm_id,
        video_url: b.video_url,
        raw_url: b.raw_url,
        mod_menu: b.mod_menu,
        user_notes: b.user_notes,
    }
}

/// A player's submission waits in the queue; it has priority when the player is an
/// AREDL+ member or the level has an active bounty.
pub open spec fn spec_insert_from_user(
    body: SubmissionPostUser,
    user: u128,
    is_aredl_plus: bool,
    has_active_bounty: bool,
) -> SubmissionInsert {
    SubmissionInsert {
        submitted_by: user,
        level_id: body.level_id,
        mobile: body.mobile,
        ldm_id: body.ldm_id,
        video_url: body.video_url,
        raw_url: body.raw_url,
        mod_menu: body.mod_menu,
        user_notes: body.user_notes,
        priority: is_aredl_plus || has_active_bounty,
        status: SubmissionStatus::Pending,
        reviewer_notes: None,
        reviewer_id: None,
    }
}

/// Whether a moderator's submission keeps its moderator fields: only with full moderation
/// permission, and only when submitting for someone else.
pub open spec fn spec_submits_as_reviewer(submitted_by: Option<u128>, user: u128, full_review: bool) -> bool {
    full_review && match submitted_by {
        Some(s) => s != user,
        None => false,
    }
}

pub open spec fn spec_insert_from_mod(
    body: SubmissionPostMod,
    user: u128,
    full_review: bool,
    is_aredl_plus: bool,
    has_active_bounty: bool,
) -> SubmissionInsert {
    if spec_submits_as_reviewer(body.submitted_by, user, full_review) {
        SubmissionInsert {
            submitted_by: body.submitted_by->0,
            level_id: body.level_id,
            mobile: body.mobile,
            ldm_id: body.ldm_id,
            video_url: body.video_url,
            raw_url: body.raw_url,
            mod_menu: body.mod_menu,
            user_notes: body.user_notes,
            priority: match body.priority {
                Some(p) => p,
                None => false,
            },
            status: match body.status {
                Some(s) => s,
                None => SubmissionStatus::Pending,
            },
            reviewer_notes: body.reviewer_notes,
            reviewer_id: Some(user),
        }
    } else {
        spec_insert_from_user(spec_post_downgrade(body), user, is_aredl_plus, has_active_bounty)
    }
}

/// Raw footage is required on pending levels that ask for it and on the top 400
/// of the main list.
pub open spec fn spec_raw_required(level: LevelInfo) -> bool {
    match level.status {
        LevelStatus::Pending => level.requires_raw_footage,
        LevelStatus::MainList => match level.position {
            Some(p) => p <= 400,
            None => false,
        },
        _ => false,
    }
}

pub open spec fn spec_create_refusal(insert: SubmissionInsert, user: u128, ctx: CreateContext) -> Option<CreateRejection> {
    if user == insert.submitted_by && !ctx.submissions_enabled {
        Some(CreateRejection::SubmissionsDisabled)
    } else if ctx.already_submitted {
        Some(CreateRejection::AlreadySubmitted)
    } else {
        match ctx.level {
            None => Some(CreateRejection::LevelNotFound),
            Some(level) => if level.status == LevelStatus::Legacy {
                Some(CreateRejection::LegacyLevel)
            } else if level.status == LevelStatus::Removed {
                Some(CreateRejection::RemovedLevel)
            } else if spec_raw_required(level) && insert.raw_url is None {
                Some(CreateRejection::RawFootageRequired)
            } else {
                None
            },
        }
    }
}

impl SubmissionPostMod {
    /// Keeps only the fields a player may send.
    pub fn downgrade(self) -> (r: SubmissionPostUser)
        ensures
            r == spec_post_downgrade(self),
    {
        SubmissionPostUser {
            level_id: self.level_id,
            mobile: self.mobile,
            ldm_id: self.ldm_id,
            video_url: self.video_url,
            raw_url: self.raw_url,
            mod_menu: self.mod_menu,
            user_notes: self.user_notes,
        }
    }

    /// Whether this submission by `user` keeps its moderator fields.
    pub fn submits_as_reviewer(&self, user: u128, full_review: bool) -> (r: bool)
        ensures
            r == spec_submits_as_reviewer(self.submitted_by, user, full_review),
    {
        match self.submitted_by {
            Some(s) => full_review && s != user,
            None => false,
        }
    }
}

impl SubmissionInsert {
    /// The row for a player's submission.
    pub fn from_user(body: SubmissionPostUser, user: u128, is_aredl_plus: bool, has_active_bounty: bool) -> (r: Self)
        ensures
            r == spec_insert_from_user(body, user, is_aredl_plus, has_active_bounty),
    {
        SubmissionInsert {
            submitted_by: user,
            level_id: body.level_id,
            mobile: body.mobile,
            ldm_id: body.ldm_id,
            video_url: body.video_url,
            raw_url: body.raw_url,
            mod_menu: body.mod_menu,
            user_notes: body.user_notes,
            priority: is_aredl_plus || has_active_bounty,
            status: SubmissionStatus::Pending,
            reviewer_notes: None,
            reviewer_id: None,
        }
    }

    /// The row for a submission sent through the moderator form by `user`. Without
    /// full moderation permission, or when submitting for themselves, it is a player's
    /// submission; otherwise the given status, priority and notes are kept and `user`
    /// is recorded as moderator.
    pub fn from_mod(
        body: SubmissionPostMod,
        user: u128,
        full_review: bool,
        is_aredl_plus: bool,
        has_active_bounty: bool,
    ) -> (r: Self)
        ensures
            r == spec_insert_from_mod(body, user, full_review, is_aredl_plus, has_active_bounty),
    {
        if !body.submits_as_reviewer(user, full_review) {
            return Self::from_user(body.downgrade(), user, is_aredl_plus, has_active_bounty);
        }
        let submitted_by = match body.submitted_by {
            Some(s) => s,
            None => user,
        };
        SubmissionInsert {
            submitted_by,
            level_id: body.level_id,
            mobile: body.mobile,
            ldm_id: body.ldm_id,
            video_url: body.video_url,
            raw_url: body.raw_url,
            mod_menu: body.mod_menu,
            user_notes: body.user_notes,
            priority: match body.priority {
                Some(p) => p,
                None => false,
            },
            status: match body.status {
                Some(s) => s,
                None => SubmissionStatus::Pending,
            },
            reviewer_notes: body.reviewer_notes,
            reviewer_id: Some(user),
        }
    }
}

/// Whether a submission for `level` must come with raw footage.
pub fn raw_footage_required(level: &LevelInfo) -> (r: bool)
    ensures
        r == spec_raw_required(*level),
{
    match level.status {
        LevelStatus::Pending => level.requires_raw_footage,
        LevelStatus::MainList => match level.position {
            Some(p) => p <= 400,
            None => false,
        },
        LevelStatus::Legacy | LevelStatus::Removed => false,
    }
}

impl Submission {
    /// Decides whether the row `insert`, sent by `user`, may be written. Players cannot
    /// submit while submissions are disabled, nor twice for one level; the level must
    /// exist and take records, and raw footage must come where it is required.
    /// A written submission is announced as `SubmissionEvent::Created`; a refused
    /// one is not announced.
    pub fn create(insert: SubmissionInsert, user: u128, ctx: &CreateContext) -> (r: Result<NewSubmission, CreateRejection>)
        ensures
            r == match spec_create_refusal(insert, user, *ctx) {
                Some(e) => Err(e),
                None => Ok(NewSubmission { insert, event: SubmissionEvent::Created }),
            },
    {
        if user == insert.submitted_by && !ctx.submissions_enabled {
            return Err(CreateRejection::SubmissionsDisabled);
        }
        if ctx.already_submitted {
            return Err(CreateRejection::AlreadySubmitted);
        }
        match ctx.level {
            None => Err(CreateRejection::LevelNotFound),
            Some(level) => {
                if level.status == LevelStatus::Legacy {
                    return Err(CreateRejection::LegacyLevel);
                }
                if level.status == LevelStatus::Removed {
                    return Err(CreateRejection::RemovedLevel);
                }
                if raw_footage_required(&level) && insert.raw_url.is_none() {
                    return Err(CreateRejection::RawFootageRequired);
                }
                Ok(NewSubmission { insert, event: SubmissionEvent::Created })
            },
        }
    }
}

/// A player's submission enters the queue as theirs: pending, without moderator or
/// moderator notes. A submission through the moderator form that does not submit as
/// moderator is exactly a player's submission of the same fields.
pub proof fn lemma_player_submission_is_queued(
    body: SubmissionPostMod,
    user: u128,
    full_review: bool,
    is_aredl_plus: bool,
    has_active_bounty: bool,
)
    ensures
        ({
            let ins = spec_insert_from_user(spec_post_downgrade(body), user, is_aredl_plus, has_active_bounty);
            &&& ins.submitted_by == user
            &&& ins.status == SubmissionStatus::Pending
            &&& ins.reviewer_id is None
            &&& ins.reviewer_notes is None
            &&& ins.priority == (is_aredl_plus || has_active_bounty)
        }),
        !spec_submits_as_reviewer(body.submitted_by, user, full_review) ==> spec_insert_from_mod(
            body,
            user,
            full_review,
            is_aredl_plus,
            has_active_bounty,
        ) == spec_insert_from_user(spec_post_downgrade(body), user, is_aredl_plus, has_active_bounty),
        spec_submits_as_reviewer(body.submitted_by, user, full_review) ==> {
            let ins = spec_insert_from_mod(body, user, full_review, is_aredl_plus, has_active_bounty);
            &&& ins.submitted_by != user
            &&& ins.reviewer_id == Some(user)
        },
{
}

/// A submission is only written for an existing level that takes records, never
/// while the player already has one for that level, never by the player
/// themselves while submissions are disabled, and always with raw footage where
/// the level requires it.
pub proof fn lemma_created_submission_is_valid(insert: SubmissionInsert, user: u128, ctx: CreateContext)
    ensures
        spec_create_refusal(insert, user, ctx) is None ==> {
            &&& !ctx.already_submitted
            &&& (user == insert.submitted_by ==> ctx.submissions_enabled)
            &&& ctx.level matches Some(level) && {
                &&& level.status != LevelStatus::Legacy
                &&& level.status != LevelStatus::Removed
                &&& (spec_raw_required(level) ==> insert.raw_url is Some)
            }
        },
        ctx.already_submitted ==> spec_create_refusal(insert, user, ctx) is Some,
{
}

/// A new submission's row carries the fields the player sent, for the level
/// they named; through the moderator form with full rights for someone else, the
/// moderator's status, priority and notes too (pending and no priority when not
/// given).
pub proof fn lemma_insert_takes_fields(
    body: SubmissionPostMod,
    user: u128,
    full_review: bool,
    is_aredl_plus: bool,
    has_active_bounty: bool,
)
    ensures
        ({
            let ins = spec_insert_from_mod(body, user, full_review, is_aredl_plus, has_active_bounty);
            &&& ins.level_id == body.level_id
            &&& ins.mobile == body.mobile
            &&& ins.ldm_id == body.ldm_id
            &&& ins.video_url == body.video_url
            &&& ins.raw_url == body.raw_url
            &&& ins.mod_menu == body.mod_menu
            &&& ins.user_notes == body.user_notes
            &&& (full_review && body.submitted_by is Some && body.submitted_by != Some(user)) ==> {
                &&& ins.submitted_by == body.submitted_by->0
                &&& ins.status == (match body.status { Some(st) => st, None => SubmissionStatus::Pending })
                &&& ins.priority == (body.priority == Some(true))
                &&& ins.reviewer_notes == body.reviewer_notes
                &&& ins.reviewer_id == Some(user)
            }
            &&& !(full_review && body.submitted_by is Some && body.submitted_by != Some(user)) ==> {
                &&& ins.submitted_by == user
                &&& ins.status == SubmissionStatus::Pending
                &&& ins.priority == (is_aredl_plus || has_active_bounty)
                &&& ins.reviewer_notes is None
                &&& ins.reviewer_id is None
            }
        }),
{
}

/// A new submission is written exactly when the submitter may submit now (a
/// moderator submitting for someone else may while submissions are closed), has
/// none for the level yet, and the level exists, takes records (neither legacy nor
/// removed) and gets raw footage where it asks for it: pending levels that require
/// it and the top 400 of the main list. Refusals come in that order.
pub proof fn lemma_create_decision(insert: SubmissionInsert, user: u128, ctx: CreateContext)
    ensures
        ({
            let r = spec_create_refusal(insert, user, ctx);
            let raw_needed = match ctx.level {
                Some(l) => (l.status == LevelStatus::Pending && l.requires_raw_footage)
                    || (l.status == LevelStatus::MainList && l.position is Some && l.position->0 <= 400),
                None => false,
            };
            &&& r is None <==> ({
                &&& (user != insert.submitted_by || ctx.submissions_enabled)
                &&& !ctx.already_submitted
                &&& ctx.level is Some
                &&& ctx.level->0.status != LevelStatus::Legacy
                &&& ctx.level->0.status != LevelStatus::Removed
                &&& (raw_needed ==> insert.raw_url is Some)
            })
            &&& (user == insert.submitted_by && !ctx.submissions_enabled) ==> r == Some(CreateRejection::SubmissionsDisabled)
            &&& (user != insert.submitted_by || ctx.submissions_enabled) && ctx.already_submitted ==> r == Some(CreateRejection::AlreadySubmitted)
            &&& (user != insert.submitted_by || ctx.submissions_enabled) && !ctx.already_submitted && ctx.level is None
                ==> r == Some(CreateRejection::LevelNotFound)
            &&& (user != insert.submitted_by || ctx.submissions_enabled) && !ctx.already_submitted
                && ctx.level is Some && ctx.level->0.status == LevelStatus::Legacy ==> r == Some(CreateRejection::LegacyLevel)
            &&& (user != insert.submitted_by || ctx.submissions_enabled) && !ctx.already_submitted
                && ctx.level is Some && ctx.level->0.status == LevelStatus::Removed ==> r == Some(CreateRejection::RemovedLevel)
        }),
{
}

/// The HTTP status of each refused submission.
pub proof fn lemma_create_rejection_codes()
    ensures
        spec_create_rejection_status(CreateRejection::SubmissionsDisabled) == 400,
        spec_create_rejection_status(CreateRejection::AlreadySubmitted) == 409,
        spec_create_rejection_status(CreateRejection::LevelNotFound) == 404,
        spec_create_rejection_status(CreateRejection::LegacyLevel) == 400,
        spec_create_rejection_status(CreateRejection::RemovedLevel) == 410,
        spec_create_rejection_status(CreateRejection::RawFootageRequired) == 400,
{
}

} // verus!
