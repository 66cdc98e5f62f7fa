use vstd::prelude::*;
use crate::levels::model::LevelStatus;
use crate::submissions::model::{Submission, SubmissionStatus};
use crate::submissions::review::{ReviewEffects, no_effects, spec_status_effects, status_effects};

verus! {

/// Changes a submitter may make to their own submission. `None` leaves a field as it is.
#[derive(Debug, Clone, Default)]
pub struct SubmissionPatchUser {
    pub mobile: Option<bool>,
    pub ldm_id: Option<i32>,
    pub video_url: Option<String>,
    pub raw_url: Option<String>,
    pub mod_menu: Option<String>,
    pub user_notes: Option<String>,
}

/// Changes a moderator may make to a submission. `None` leaves a field as it is.
#[derive(Debug, Clone, Default)]
pub struct SubmissionPatchMod {
    pub mobile: Option<bool>,
    pub ldm_id: Option<i32>,
    pub video_url: Option<String>,
    pub raw_url: Option<String>,
    pub mod_menu: Option<String>,
    pub user_notes: Option<String>,
    pub status: Option<SubmissionStatus>,
    pub priority: Option<bool>,
    pub reviewer_notes: Option<String>,
    pub private_reviewer_notes: Option<String>,
    pub locked: Option<bool>,
}

/// What the stored data says about an edit besides the submission itself.
#[derive(Debug, Clone, Copy)]
pub struct PatchContext {
    /// Ban level of the user making the edit.
    pub editor_ban_level: i32,
    /// Whether submissions are currently open.
    pub submissions_enabled: bool,
    /// Status of the level the submission is for.
    pub level_status: LevelStatus,
    /// Whether the editor may edit submissions they have not claimed.
    pub edit_non_claimed: bool,
}

/// Why an edit of a submission is refused.
#[derive(Debug, Clone, Copy, PartialEq, Eq, Structural)]
pub enum PatchRejection {
    NoChanges,
    Banned,
    NotOwner,
    Locked,
    BeingReviewed,
    SubmissionsClosed,
    LegacyLevel,
    RemovedLevel,
    NotPermitted,
}

impl PatchRejection {
    /// HTTP status of the refusal.
    pub fn status_code(&self) -> (r: u16)
        ensures
            r == spec_patch_rejection_status(*self),
    {
        match self {
            PatchRejection::NoChanges => 400,
            PatchRejection::Banned => 403,
            PatchRejection::NotOwner => 403,
            PatchRejection::Locked => 403,
            PatchRejection::BeingReviewed => 409,
            PatchRejection::SubmissionsClosed => 400,
            PatchRejection::LegacyLevel => 400,
            PatchRejection::RemovedLevel => 410,
            PatchRejection::NotPermitted => 403,
        }
    }

    /// Message of the refusal.
    pub fn message(&self) -> (r: &'static str)
        ensures
            *self == PatchRejection::NoChanges ==> r@ == "No changes were provided!"@,
            *self == PatchRejection::Banned ==> r@ == "You have been banned from submitting records."@,
            *self == PatchRejection::NotOwner ==> r@ == "You can only edit your own submissions."@,
            *self == PatchRejection::Locked ==> r@ == "This submission has been locked and cannot be edited"@,
            *self == PatchRejection::BeingReviewed ==> r@ == "This submission is currently being reviewed and cannot be edited."@,
            *self == PatchRejection::SubmissionsClosed ==> r@ == "Submissions are currently closed. You can only edit pending submissions."@,
            *self == PatchRejection::LegacyLevel ==> r@ == "This level is on the legacy list and is not accepting records!"@,
            *self == PatchRejection::RemovedLevel ==> r@ == "This level has been removed from the list."@,
            *self == PatchRejection::NotPermitted ==> r@ == "You do not have permission to edit this submission."@,
    {
        match self {
            PatchRejection::NoChanges => "No changes were provided!",
            PatchRejection::Banned => "You have been banned from submitting records.",
            PatchRejection::NotOwner => "You can only edit your own submissions.",
            PatchRejection::Locked => "This submission has been locked and cannot be edited",
            PatchRejection::BeingReviewed => "This submission is currently being reviewed and cannot be edited.",
            PatchRejection::SubmissionsClosed => "Submissions are currently closed. You can only edit pending submissions.",
            PatchRejection::LegacyLevel => "This level is on the legacy list and is not accepting records!",
            PatchRejection::RemovedLevel => "This level has been removed from the list.",
            PatchRejection::NotPermitted => "You do not have permission to edit this submission.",
        }
    }
}

pub open spec fn spec_patch_rejection_status(r: PatchRejection) -> u16 {
    match r {
        PatchRejection::NoChanges => 400,
        PatchRejection::Banned => 403,
        PatchRejection::NotOwner => 403,
        PatchRejection::Locked => 403,
        PatchRejection::BeingReviewed => 409,
        PatchRejection::SubmissionsClosed => 400,
        PatchRejection::LegacyLevel => 400,
        PatchRejection::RemovedLevel => 410,
        PatchRejection::NotPermitted => 403,
    }
}

/// The result of an accepted edit: the stored submission afterwards, and what follows.
#[derive(Debug, Clone)]
pub struct PatchOutcome {
    pub submission: Submission,
    pub effects: ReviewEffects,
}

pub open spec fn or_keep<T>(new: Option<T>, old: T) -> T {
    match new {
        Some(v) => v,
        None => old,
    }
}

pub open spec fn or_keep_opt<T>(new: Option<T>, old: Option<T>) -> Option<T> {
    match new {
        Some(v) => Some(v),
        None => old,
    }
}

/// A submission being looked at by a moderator cannot be changed by its submitter.
pub open spec fn is_being_reviewed(s: SubmissionStatus) -> bool {
    s == SubmissionStatus::Claimed || s == SubmissionStatus::UnderConsideration
        || s == SubmissionStatus::UnderReview
}

pub open spec fn user_patch_is_empty(p: SubmissionPatchUser) -> bool {
    p.mobile is None && p.ldm_id is None && p.video_url is None && p.raw_url is None
        && p.mod_menu is None && p.user_notes is None
}

pub open spec fn mod_patch_is_empty(p: SubmissionPatchMod) -> bool {
    p.mobile is None && p.ldm_id is None && p.video_url is None && p.raw_url is None
        && p.mod_menu is None && p.user_notes is None && p.status is None && p.priority is None
        && p.reviewer_notes is None && p.private_reviewer_notes is None && p.locked is None
}

/// The first rule a submitter's edit breaks, if any.
pub open spec fn spec_user_patch_refusal(old: Submission, user: u128, ctx: PatchContext) -> Option<PatchRejection> {
    if ctx.editor_ban_level >= 2 {
        Some(PatchRejection::Banned)
    } else if old.submitted_by != user {
        Some(PatchRejection::NotOwner)
    } else if old.locked {
        Some(PatchRejection::Locked)
    } else if is_being_reviewed(old.status) {
        Some(PatchRejection::BeingReviewed)
    } else if !ctx.submissions_enabled && old.status != SubmissionStatus::Pending {
        Some(PatchRejection::SubmissionsClosed)
    } else if ctx.level_status == LevelStatus::Legacy {
        Some(PatchRejection::LegacyLevel)
    } else if ctx.level_status == LevelStatus::Removed {
        Some(PatchRejection::RemovedLevel)
    } else {
        None
    }
}

/// A submitter's edit goes back to the queue: it is pending again, and the
/// previous moderator and their notes are cleared.
pub open spec fn spec_apply_user_patch(old: Submission, p: SubmissionPatchUser) -> Submission {
    Submission {
        mobile: or_keep(p.mobile, old.mobile),
        ldm_id: or_keep_opt(p.ldm_id, old.ldm_id),
        video_url: or_keep(p.video_url, old.video_url),
        raw_url: or_keep_opt(p.raw_url, old.raw_url),
        mod_menu: or_keep_opt(p.mod_menu, old.mod_menu),
        user_notes: or_keep_opt(p.user_notes, old.user_notes),
        status: SubmissionStatus::Pending,
        reviewer_id: None,
        reviewer_notes: None,
        ..old
    }
}

/// A moderator's edit records them as the moderator.
pub open spec fn spec_apply_mod_patch(old: Submission, p: SubmissionPatchMod, moderator: u128) -> Submission {
    Submission {
        mobile: or_keep(p.mobile, old.mobile),
        ldm_id: or_keep_opt(p.ldm_id, old.ldm_id),
        video_url: or_keep(p.video_url, old.video_url),
        raw_url: or_keep_opt(p.raw_url, old.raw_url),
        mod_menu: or_keep_opt(p.mod_menu, old.mod_menu),
        user_notes: or_keep_opt(p.user_notes, old.user_notes),
        status: or_keep(p.status, old.status),
        priority: or_keep(p.priority, old.priority),
        reviewer_notes: or_keep_opt(p.reviewer_notes, old.reviewer_notes),
        private_reviewer_notes: or_keep_opt(p.private_reviewer_notes, old.private_reviewer_notes),
        locked: or_keep(p.locked, old.locked),
        reviewer_id: Some(moderator),
        ..old
    }
}

pub open spec fn spec_user_patch(p: SubmissionPatchUser, old: Submission, user: u128, ctx: PatchContext) -> Result<Submission, PatchRejection> {
    if user_patch_is_empty(p) {
        Err(PatchRejection::NoChanges)
    } else {
        match spec_user_patch_refusal(old, user, ctx) {
            Some(e) => Err(e),
            None => Ok(spec_apply_user_patch(old, p)),
        }
    }
}

pub open spec fn spec_downgrade(s: SubmissionPatchMod) -> SubmissionPatchUser {
    SubmissionPatchUser {
        mobile: s.mobile,
        ldm_id: s.ldm_id,
        video_url: s.video_url,
        raw_url: s.raw_url,
        mod_menu: s.mod_menu,
        user_notes: s.user_notes,
    }
}

/// Whether a moderator who may not edit unclaimed submissions may still edit this one:
/// they must have claimed it, and it must have no raw footage.
pub open spec fn may_edit_claimed(old: Submission, moderator: u128) -> bool {
    old.raw_url is None && old.status == SubmissionStatus::Claimed && old.reviewer_id == Some(moderator)
}

pub open spec fn spec_mod_patch(p: SubmissionPatchMod, old: Submission, moderator: u128, ctx: PatchContext) -> Result<PatchOutcome, PatchRejection> {
    if mod_patch_is_empty(p) {
        Err(PatchRejection::NoChanges)
    } else if old.submitted_by == moderator {
        match spec_user_patch(spec_downgrade(p), old, moderator, ctx) {
            Ok(s) => Ok(PatchOutcome { submission: s, effects: no_effects() }),
            Err(e) => Err(e),
        }
    } else if !ctx.edit_non_claimed && !may_edit_claimed(old, moderator) {
        Err(PatchRejection::NotPermitted)
    } else {
        Ok(PatchOutcome {
            submission: spec_apply_mod_patch(old, p, moderator),
            effects: spec_status_effects(old.status, or_keep(p.status, old.status)),
        })
    }
}

fn keep<T>(new: Option<T>, old: T) -> (r: T)
    ensures
        r == or_keep(new, old),
{
    match new {
        Some(v) => v,
        None => old,
    }
}

fn keep_opt<T>(new: Option<T>, old: Option<T>) -> (r: Option<T>)
    ensures
        r == or_keep_opt(new, old),
{
    match new {
        Some(v) => Some(v),
        None => old,
    }
}

fn user_patch_refusal(old: &Submission, user: u128, ctx: &PatchContext) -> (r: Option<PatchRejection>)
    ensures
        r == spec_user_patch_refusal(*old, user, *ctx),
{
    if ctx.editor_ban_level >= 2 {
        return Some(PatchRejection::Banned);
    }
    if old.submitted_by != user {
        return Some(PatchRejection::NotOwner);
    }
    if old.locked {
        return Some(PatchRejection::Locked);
    }
    match old.status {
        SubmissionStatus::Claimed | SubmissionStatus::UnderConsideration
        | SubmissionStatus::UnderReview => {
            return Some(PatchRejection::BeingReviewed);
        },
        _ => {},
    }
    if !ctx.submissions_enabled && old.status != SubmissionStatus::Pending {
        return Some(PatchRejection::SubmissionsClosed);
    }
    match ctx.level_status {
        LevelStatus::Legacy => Some(PatchRejection::LegacyLevel),
        LevelStatus::Removed => Some(PatchRejection::RemovedLevel),
        _ => None,
    }
}

impl SubmissionPatchUser {
    /// Whether the edit changes nothing.
    pub fn has_no_changes(&self) -> (r: bool)
        ensures
            r == user_patch_is_empty(*self),
    {
        self.mobile.is_none() && self.ldm_id.is_none() && self.video_url.is_none()
            && self.raw_url.is_none() && self.mod_menu.is_none() && self.user_notes.is_none()
    }

    /// A submitter edits their own submission `old`. The edit must change something,
    /// the submitter must not be banned, must own the submission, and the submission
    /// must be neither locked nor being examined; while submissions are closed only
    /// pending submissions can be edited; the level must still take records.
    /// The edited submission is pending again, without moderator or moderator notes.
    pub fn patch(patch: Self, old: Submission, user: u128, ctx: &PatchContext) -> (r: Result<Submission, PatchRejection>)
        ensures
            r == spec_user_patch(patch, old, user, *ctx),
    {
        if patch.has_no_changes() {
            return Err(PatchRejection::NoChanges);
        }
        if let Some(e) = user_patch_refusal(&old, user, ctx) {
            return Err(e);
        }
        Ok(Submission {
            mobile: keep(patch.mobile, old.mobile),
            ldm_id: keep_opt(patch.ldm_id, old.ldm_id),
            video_url: keep(patch.video_url, old.video_url),
            raw_url: keep_opt(patch.raw_url, old.raw_url),
            mod_menu: keep_opt(patch.mod_menu, old.mod_menu),
            user_notes: keep_opt(patch.user_notes, old.user_notes),
            status: SubmissionStatus::Pending,
            reviewer_id: None,
            reviewer_notes: None,
            ..old
        })
    }
}

impl SubmissionPatchMod {
    /// Whether the edit changes nothing.
    pub fn has_no_changes(&self) -> (r: bool)
        ensures
            r == mod_patch_is_empty(*self),
    {
        self.mobile.is_none() && self.ldm_id.is_none() && self.video_url.is_none()
            && self.raw_url.is_none() && self.mod_menu.is_none() && self.user_notes.is_none()
            && self.status.is_none() && self.priority.is_none() && self.reviewer_notes.is_none()
            && self.private_reviewer_notes.is_none() && self.locked.is_none()
    }

    /// Keeps only the fields a submitter may change.
    pub fn downgrade(s: Self) -> (r: SubmissionPatchUser)
        ensures
            r == spec_downgrade(s),
    {
        SubmissionPatchUser {
            mobile: s.mobile,
            ldm_id: s.ldm_id,
            video_url: s.video_url,
            raw_url: s.raw_url,
            mod_menu: s.mod_menu,
            user_notes: s.user_notes,
        }
    }

    /// A moderator edits the submission `old`. On their own submission the edit is a
    /// submitter's edit with the moderator fields dropped. Otherwise, unless they may
    /// edit unclaimed submissions, they must have claimed it and it must have no raw
    /// footage. The moderator is recorded on the submission, and a status change
    /// brings its notification, broadcast event and shift count.
    pub fn patch(patch: Self, old: Submission, moderator: u128, ctx: &PatchContext) -> (r: Result<PatchOutcome, PatchRejection>)
        ensures
            r == spec_mod_patch(patch, old, moderator, *ctx),
    {
        if patch.has_no_changes() {
            return Err(PatchRejection::NoChanges);
        }
        if old.submitted_by == moderator {
            return match SubmissionPatchUser::patch(Self::downgrade(patch), old, moderator, ctx) {
                Ok(s) => Ok(PatchOutcome {
                    submission: s,
                    effects: ReviewEffects { notification: None, event: None, counts_toward_shift: false },
                }),
                Err(e) => Err(e),
            };
        }
        if !ctx.edit_non_claimed && (old.raw_url.is_some() || old.status != SubmissionStatus::Claimed
            || old.reviewer_id != Some(moderator)) {
            return Err(PatchRejection::NotPermitted);
        }
        let old_status = old.status;
        let new_status = keep(patch.status, old_status);
        let effects = status_effects(old_status, new_status);
        let submission = Submission {
            mobile: keep(patch.mobile, old.mobile),
            ldm_id: keep_opt(patch.ldm_id, old.ldm_id),
            video_url: keep(patch.video_url, old.video_url),
            raw_url: keep_opt(patch.raw_url, old.raw_url),
            mod_menu: keep_opt(patch.mod_menu, old.mod_menu),
            user_notes: keep_opt(patch.user_notes, old.user_notes),
            status: new_status,
            priority: keep(patch.priority, old.priority),
            reviewer_notes: keep_opt(patch.reviewer_notes, old.reviewer_notes),
            private_reviewer_notes: keep_opt(patch.private_reviewer_notes, old.private_reviewer_notes),
            locked: keep(patch.locked, old.locked),
            reviewer_id: Some(moderator),
            ..old
        };
        Ok(PatchOutcome { submission, effects })
    }
}

/// A submitter's accepted edit sends the submission back to the queue: it is
/// pending, has no moderator and no moderator notes; it stays the same submission
/// of the same player for the same level, and its priority, lock and private
/// notes are untouched. It is only accepted on an unlocked submission of the
/// editor that no moderator is looking at.
pub proof fn lemma_user_patch_requeues(p: SubmissionPatchUser, old: Submission, user: u128, ctx: PatchContext)
    ensures
        spec_user_patch(p, old, user, ctx) matches Ok(s) ==> {
            &&& s.status == SubmissionStatus::Pending
            &&& s.reviewer_id is None
            &&& s.reviewer_notes is None
            &&& s.id == old.id
            &&& s.submitted_by == old.submitted_by
            &&& s.submitted_by == user
            &&& s.level_id == old.level_id
            &&& s.created_at == old.created_at
            &&& s.priority == old.priority
            &&& s.locked == old.locked
            &&& s.private_reviewer_notes == old.private_reviewer_notes
            &&& !old.locked
            &&& !is_being_reviewed(old.status)
        },
{
}

/// A moderator editing their own submission is a submitter like any other: the
/// outcome is that of the submitter's edit made of the fields a submitter may
/// change, with nothing else following.
pub proof fn lemma_own_submission_is_user_edit(p: SubmissionPatchMod, old: Submission, moderator: u128, ctx: PatchContext)
    requires
        old.submitted_by == moderator,
        !mod_patch_is_empty(p),
    ensures
        spec_mod_patch(p, old, moderator, ctx) == match spec_user_patch(spec_downgrade(p), old, moderator, ctx) {
            Ok(s) => Ok(PatchOutcome { submission: s, effects: no_effects() }),
            Err(e) => Err::<PatchOutcome, PatchRejection>(e),
        },
{
}

/// A moderator's accepted edit keeps the submission's identity, owner, level and
/// creation time; on someone else's submission it records the moderator, and
/// without permission to edit unclaimed submissions it needs the moderator's own
/// claim on a submission without raw footage.
pub proof fn lemma_mod_patch_keeps_identity(p: SubmissionPatchMod, old: Submission, moderator: u128, ctx: PatchContext)
    ensures
        spec_mod_patch(p, old, moderator, ctx) matches Ok(o) ==> {
            &&& o.submission.id == old.id
            &&& o.submission.submitted_by == old.submitted_by
            &&& o.submission.level_id == old.level_id
            &&& o.submission.created_at == old.created_at
            &&& old.submitted_by != moderator ==> o.submission.reviewer_id == Some(moderator)
            &&& old.submitted_by != moderator && !ctx.edit_non_claimed ==> may_edit_claimed(old, moderator)
        },
{
}

/// A submitter's accepted edit takes every field the edit gives and keeps the
/// old value of every field it does not give.
pub proof fn lemma_user_patch_takes_fields(p: SubmissionPatchUser, old: Submission, user: u128, ctx: PatchContext)
    ensures
        spec_user_patch(p, old, user, ctx) matches Ok(s) ==> {
            &&& (p.mobile matches Some(v) ==> s.mobile == v) && (p.mobile is None ==> s.mobile == old.mobile)
            &&& (p.ldm_id matches Some(v) ==> s.ldm_id == Some(v)) && (p.ldm_id is None ==> s.ldm_id == old.ldm_id)
            &&& (p.video_url matches Some(v) ==> s.video_url == v) && (p.video_url is None ==> s.video_url == old.video_url)
            &&& (p.raw_url matches Some(v) ==> s.raw_url == Some(v)) && (p.raw_url is None ==> s.raw_url == old.raw_url)
            &&& (p.mod_menu matches Some(v) ==> s.mod_menu == Some(v)) && (p.mod_menu is None ==> s.mod_menu == old.mod_menu)
            &&& (p.user_notes matches Some(v) ==> s.user_notes == Some(v)) && (p.user_notes is None ==> s.user_notes == old.user_notes)
            &&& s.reviewer_notes is None
            &&& s.updated_at == old.updated_at
        },
{
}

/// A moderator's accepted edit of someone else's submission takes every field
/// the edit gives and keeps the old value of every field it does not give.
pub proof fn lemma_mod_patch_takes_fields(p: SubmissionPatchMod, old: Submission, moderator: u128, ctx: PatchContext)
    requires
        old.submitted_by != moderator,
    ensures
        spec_mod_patch(p, old, moderator, ctx) matches Ok(o) ==> {
            let s = o.submission;
            &&& (p.mobile matches Some(v) ==> s.mobile == v) && (p.mobile is None ==> s.mobile == old.mobile)
            &&& (p.ldm_id matches Some(v) ==> s.ldm_id == Some(v)) && (p.ldm_id is None ==> s.ldm_id == old.ldm_id)
            &&& (p.video_url matches Some(v) ==> s.video_url == v) && (p.video_url is None ==> s.video_url == old.video_url)
            &&& (p.raw_url matches Some(v) ==> s.raw_url == Some(v)) && (p.raw_url is None ==> s.raw_url == old.raw_url)
            &&& (p.mod_menu matches Some(v) ==> s.mod_menu == Some(v)) && (p.mod_menu is None ==> s.mod_menu == old.mod_menu)
            &&& (p.user_notes matches Some(v) ==> s.user_notes == Some(v)) && (p.user_notes is None ==> s.user_notes == old.user_notes)
            &&& (p.status matches Some(v) ==> s.status == v) && (p.status is None ==> s.status == old.status)
            &&& (p.priority matches Some(v) ==> s.priority == v) && (p.priority is None ==> s.priority == old.priority)
            &&& (p.reviewer_notes matches Some(v) ==> s.reviewer_notes == Some(v)) && (p.reviewer_notes is None ==> s.reviewer_notes == old.reviewer_notes)
            &&& (p.private_reviewer_notes matches Some(v) ==> s.private_reviewer_notes == Some(v))
            &&& (p.private_reviewer_notes is None ==> s.private_reviewer_notes == old.private_reviewer_notes)
            &&& (p.locked matches Some(v) ==> s.locked == v) && (p.locked is None ==> s.locked == old.locked)
            &&& s.updated_at == old.updated_at
        },
{
}

/// When each edit is refused: an empty edit always; otherwise a banned editor,
/// someone else's submission, a locked one, one being looked at, a non-pending one
/// while submissions are closed, and a legacy or removed level, in this order;
/// anything else is accepted.
pub proof fn lemma_user_patch_refusals(p: SubmissionPatchUser, old: Submission, user: u128, ctx: PatchContext)
    ensures
        ({
            let r = spec_user_patch(p, old, user, ctx);
            let empty = p.mobile is None && p.ldm_id is None && p.video_url is None && p.raw_url is None
                && p.mod_menu is None && p.user_notes is None;
            let reviewing = old.status == SubmissionStatus::Claimed || old.status == SubmissionStatus::UnderConsideration
                || old.status == SubmissionStatus::UnderReview;
            &&& empty ==> r == Err::<Submission, PatchRejection>(PatchRejection::NoChanges)
            &&& !empty && ctx.editor_ban_level >= 2 ==> r == Err::<Submission, PatchRejection>(PatchRejection::Banned)
            &&& !empty && ctx.editor_ban_level < 2 && old.submitted_by != user ==> r == Err::<Submission, PatchRejection>(PatchRejection::NotOwner)
            &&& !empty && ctx.editor_ban_level < 2 && old.submitted_by == user && old.locked ==> r == Err::<Submission, PatchRejection>(PatchRejection::Locked)
            &&& !empty && ctx.editor_ban_level < 2 && old.submitted_by == user && !old.locked && reviewing
                ==> r == Err::<Submission, PatchRejection>(PatchRejection::BeingReviewed)
            &&& r is Ok <==> (!empty && ctx.editor_ban_level < 2 && old.submitted_by == user && !old.locked && !reviewing
                && (ctx.submissions_enabled || old.status == SubmissionStatus::Pending)
                && ctx.level_status != LevelStatus::Legacy && ctx.level_status != LevelStatus::Removed)
        }),
{
}

/// A moderator's edit of someone else's submission is accepted exactly when it
/// changes something and the moderator may edit unclaimed submissions, or has
/// claimed this one and it has no raw footage; what follows it is what the status
/// change brings.
pub proof fn lemma_mod_patch_acceptance(p: SubmissionPatchMod, old: Submission, moderator: u128, ctx: PatchContext)
    requires
        old.submitted_by != moderator,
    ensures
        ({
            let empty = p.mobile is None && p.ldm_id is None && p.video_url is None && p.raw_url is None
                && p.mod_menu is None && p.user_notes is None && p.status is None && p.priority is None
                && p.reviewer_notes is None && p.private_reviewer_notes is None && p.locked is None;
            let allowed = ctx.edit_non_claimed || (old.raw_url is None && old.status == SubmissionStatus::Claimed
                && old.reviewer_id == Some(moderator));
            let r = spec_mod_patch(p, old, moderator, ctx);
            &&& empty ==> r == Err::<PatchOutcome, PatchRejection>(PatchRejection::NoChanges)
            &&& !empty && !allowed ==> r == Err::<PatchOutcome, PatchRejection>(PatchRejection::NotPermitted)
            &&& r is Ok <==> (!empty && allowed)
            &&& r matches Ok(o) ==> o.effects == spec_status_effects(old.status, o.submission.status)
        }),
{
}

/// The HTTP status of each refused edit.
pub proof fn lemma_patch_rejection_codes()
    ensures
        spec_patch_rejection_status(PatchRejection::NoChanges) == 400,
        spec_patch_rejection_status(PatchRejection::Banned) == 403,
        spec_patch_rejection_status(PatchRejection::NotOwner) == 403,
        spec_patch_rejection_status(PatchRejection::Locked) == 403,
        spec_patch_rejection_status(PatchRejection::BeingReviewed) == 409,
        spec_patch_rejection_status(PatchRejection::SubmissionsClosed) == 400,
        spec_patch_rejection_status(PatchRejection::LegacyLevel) == 400,
        spec_patch_rejection_status(PatchRejection::RemovedLevel) == 410,
        spec_patch_rejection_status(PatchRejection::NotPermitted) == 403,
{
}

/// The submitter's part of a moderator's edit keeps exactly the fields a
/// submitter may change.
pub proof fn lemma_downgrade_keeps_fields(p: SubmissionPatchMod)
    ensures
        spec_downgrade(p).mobile == p.mobile,
        spec_downgrade(p).ldm_id == p.ldm_id,
        spec_downgrade(p).video_url == p.video_url,
        spec_downgrade(p).raw_url == p.raw_url,
        spec_downgrade(p).mod_menu == p.mod_menu,
        spec_downgrade(p).user_notes == p.user_notes,
{
}

} // verus!
