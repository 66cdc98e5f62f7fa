use aredl_backend::levels::model::LevelStatus;
use aredl_backend::submissions::actions::{ReviewRejection, ReviewerNotes};
use aredl_backend::submissions::model::{Submission, SubmissionStatus};
use aredl_backend::submissions::model::SubmissionStatus::{Accepted, Claimed, Denied, Pending, UnderConsideration, UnderReview};
use aredl_backend::submissions::patch::{PatchContext, PatchRejection, SubmissionPatchMod, SubmissionPatchUser};
use aredl_backend::submissions::post::{
    raw_footage_required, CreateContext, CreateRejection, LevelInfo, SubmissionInsert, SubmissionPostMod, SubmissionPostUser,
};
use aredl_backend::submissions::shift::{Shift, ShiftUpdate};
use aredl_backend::submissions::review::{counts_toward_shift, shift_completed, status_effects, NotificationType, SubmissionEvent};

const PLAYER: u128 = 10;
const REVIEWER: u128 = 20;
const OTHER: u128 = 30;

fn submission(status: SubmissionStatus) -> Submission {
    Submission {
        id: 1,
        level_id: 2,
        submitted_by: PLAYER,
        mobile: false,
        ldm_id: None,
        video_url: "https://youtu.be/abc".to_string(),
        raw_url: None,
        mod_menu: None,
        status,
        reviewer_id: None,
        priority: false,
        reviewer_notes: None,
        user_notes: None,
        private_reviewer_notes: None,
        locked: false,
        created_at: 100,
        updated_at: 100,
    }
}

fn open_ctx() -> PatchContext {
    PatchContext { editor_ban_level: 0, submissions_enabled: true, level_status: LevelStatus::MainList, edit_non_claimed: false }
}

fn user_patch_notes(notes: &str) -> SubmissionPatchUser {
    SubmissionPatchUser { user_notes: Some(notes.to_string()), ..Default::default() }
}

fn post_user(raw: Option<&str>) -> SubmissionPostUser {
    SubmissionPostUser {
        level_id: 2,
        mobile: true,
        ldm_id: None,
        video_url: "https://youtu.be/abc".to_string(),
        raw_url: raw.map(|r| r.to_string()),
        mod_menu: None,
        user_notes: None,
    }
}

fn level(status: LevelStatus, position: Option<i32>, requires_raw_footage: bool) -> Option<LevelInfo> {
    Some(LevelInfo { status, position, requires_raw_footage })
}

// ---- creating submissions ----

#[test]
fn player_submission_waits_in_queue() {
    let ins = SubmissionInsert::from_user(post_user(None), PLAYER, false, false);
    assert_eq!(ins.submitted_by, PLAYER);
    assert_eq!(ins.status, SubmissionStatus::Pending);
    assert_eq!(ins.reviewer_id, None);
    assert!(!ins.priority);
    assert!(SubmissionInsert::from_user(post_user(None), PLAYER, true, false).priority);
    assert!(SubmissionInsert::from_user(post_user(None), PLAYER, false, true).priority);
}

fn post_mod(submitted_by: Option<u128>) -> SubmissionPostMod {
    SubmissionPostMod {
        submitted_by,
        level_id: 2,
        mobile: false,
        ldm_id: Some(5),
        video_url: "v".to_string(),
        raw_url: Some("r".to_string()),
        mod_menu: None,
        user_notes: None,
        priority: Some(true),
        status: Some(SubmissionStatus::Accepted),
        reviewer_notes: Some("ok".to_string()),
    }
}

#[test]
fn reviewer_submitting_for_someone_else_keeps_reviewer_fields() {
    let ins = SubmissionInsert::from_mod(post_mod(Some(OTHER)), REVIEWER, true, false, false);
    assert_eq!(ins.submitted_by, OTHER);
    assert_eq!(ins.reviewer_id, Some(REVIEWER));
    assert_eq!(ins.status, SubmissionStatus::Accepted);
    assert!(ins.priority);
    assert_eq!(ins.reviewer_notes.as_deref(), Some("ok"));
}

#[test]
fn reviewer_form_without_permission_is_a_player_submission() {
    for (body, full) in [(post_mod(Some(OTHER)), false), (post_mod(Some(REVIEWER)), true), (post_mod(None), true)] {
        let ins = SubmissionInsert::from_mod(body, REVIEWER, full, false, false);
        assert_eq!(ins.submitted_by, REVIEWER);
        assert_eq!(ins.reviewer_id, None);
        assert_eq!(ins.status, SubmissionStatus::Pending);
        assert!(!ins.priority);
        assert_eq!(ins.reviewer_notes, None);
        assert_eq!(ins.ldm_id, Some(5));
    }
    assert!(post_mod(Some(OTHER)).submits_as_reviewer(REVIEWER, true));
    assert!(!post_mod(Some(OTHER)).submits_as_reviewer(REVIEWER, false));
    let down = post_mod(Some(OTHER)).downgrade();
    assert_eq!(down.raw_url.as_deref(), Some("r"));
}

fn create_ctx(enabled: bool, already: bool, lvl: Option<LevelInfo>) -> CreateContext {
    CreateContext { submissions_enabled: enabled, already_submitted: already, level: lvl }
}

#[test]
fn create_refusals() {
    let ins = || SubmissionInsert::from_user(post_user(None), PLAYER, false, false);
    let main = level(LevelStatus::MainList, Some(500), false);
    let cases = [
        (create_ctx(false, false, main), CreateRejection::SubmissionsDisabled, 400, "Submissions are currently disabled"),
        (create_ctx(true, true, main), CreateRejection::AlreadySubmitted, 409, "You already have a submission for this level"),
        (create_ctx(true, false, None), CreateRejection::LevelNotFound, 404, "Could not find this level"),
        (create_ctx(true, false, level(LevelStatus::Legacy, Some(10), false)), CreateRejection::LegacyLevel, 400, "This level is on the legacy list and is not accepting records."),
        (create_ctx(true, false, level(LevelStatus::Removed, None, false)), CreateRejection::RemovedLevel, 410, "This level has been removed from the list."),
        (create_ctx(true, false, level(LevelStatus::MainList, Some(400), false)), CreateRejection::RawFootageRequired, 400, "This level is top 400 and requires raw footage"),
    ];
    for (ctx, expected, code, msg) in cases.iter() {
        let r = Submission::create(ins(), PLAYER, ctx);
        let e = r.err().expect("refused");
        assert_eq!(e, *expected);
        assert_eq!(e.status_code(), *code);
        assert_eq!(e.message(), *msg);
    }
}

#[test]
fn create_accepts_valid_submission() {
    let ins = SubmissionInsert::from_user(post_user(None), PLAYER, false, false);
    let ok = Submission::create(ins, PLAYER, &create_ctx(true, false, level(LevelStatus::MainList, Some(401), false))).unwrap();
    assert_eq!(ok.insert.submitted_by, PLAYER);
    assert_eq!(ok.insert.level_id, 2);
    assert_eq!(ok.insert.status, Pending);
    assert_eq!(ok.event, SubmissionEvent::Created);
    assert_eq!(ok.event.name(), "SUBMISSION_CREATED");
    let ins = SubmissionInsert::from_user(post_user(Some("raw")), PLAYER, false, false);
    assert!(Submission::create(ins, PLAYER, &create_ctx(true, false, level(LevelStatus::MainList, Some(1), false))).is_ok());
}

#[test]
fn reviewer_may_submit_for_others_while_closed() {
    let ins = SubmissionInsert::from_mod(post_mod(Some(OTHER)), REVIEWER, true, false, false);
    assert!(Submission::create(ins, REVIEWER, &create_ctx(false, false, level(LevelStatus::MainList, Some(3), false))).is_ok());
}

#[test]
fn raw_footage_rules() {
    assert!(raw_footage_required(&LevelInfo { status: LevelStatus::MainList, position: Some(400), requires_raw_footage: false }));
    assert!(!raw_footage_required(&LevelInfo { status: LevelStatus::MainList, position: Some(401), requires_raw_footage: true }));
    assert!(!raw_footage_required(&LevelInfo { status: LevelStatus::MainList, position: None, requires_raw_footage: true }));
    assert!(raw_footage_required(&LevelInfo { status: LevelStatus::Pending, position: None, requires_raw_footage: true }));
    assert!(!raw_footage_required(&LevelInfo { status: LevelStatus::Pending, position: Some(1), requires_raw_footage: false }));
    assert!(!raw_footage_required(&LevelInfo { status: LevelStatus::Legacy, position: Some(1), requires_raw_footage: true }));
}

// ---- submitter edits ----

#[test]
fn user_edit_requeues() {
    let mut old = submission(SubmissionStatus::Denied);
    old.reviewer_id = Some(REVIEWER);
    old.reviewer_notes = Some("bad".to_string());
    old.private_reviewer_notes = Some("private".to_string());
    old.priority = true;
    let s = SubmissionPatchUser::patch(user_patch_notes("fixed"), old, PLAYER, &open_ctx()).unwrap();
    assert_eq!(s.status, SubmissionStatus::Pending);
    assert_eq!(s.reviewer_id, None);
    assert_eq!(s.reviewer_notes, None);
    assert_eq!(s.user_notes.as_deref(), Some("fixed"));
    assert_eq!(s.private_reviewer_notes.as_deref(), Some("private"));
    assert!(s.priority);
    assert_eq!(s.id, 1);
    assert_eq!(s.video_url, "https://youtu.be/abc");
}

#[test]
fn user_edit_refusals() {
    let ctx = open_ctx();
    let check = |p: SubmissionPatchUser, old: Submission, user: u128, ctx: PatchContext, expected: PatchRejection, code: u16, msg: &str| {
        let e = SubmissionPatchUser::patch(p, old, user, &ctx).err().expect("refused");
        assert_eq!(e, expected);
        assert_eq!(e.status_code(), code);
        assert_eq!(e.message(), msg);
    };
    check(SubmissionPatchUser::default(), submission(SubmissionStatus::Pending), PLAYER, ctx, PatchRejection::NoChanges, 400, "No changes were provided!");
    check(user_patch_notes("x"), submission(SubmissionStatus::Pending), PLAYER, PatchContext { editor_ban_level: 2, ..ctx }, PatchRejection::Banned, 403, "You have been banned from submitting records.");
    check(user_patch_notes("x"), submission(SubmissionStatus::Pending), OTHER, ctx, PatchRejection::NotOwner, 403, "You can only edit your own submissions.");
    let mut locked = submission(SubmissionStatus::Pending);
    locked.locked = true;
    check(user_patch_notes("x"), locked, PLAYER, ctx, PatchRejection::Locked, 403, "This submission has been locked and cannot be edited");
    for st in [SubmissionStatus::Claimed, SubmissionStatus::UnderConsideration, SubmissionStatus::UnderReview] {
        check(user_patch_notes("x"), submission(st), PLAYER, ctx, PatchRejection::BeingReviewed, 409, "This submission is currently being reviewed and cannot be edited.");
    }
    check(user_patch_notes("x"), submission(SubmissionStatus::Denied), PLAYER, PatchContext { submissions_enabled: false, ..ctx }, PatchRejection::SubmissionsClosed, 400, "Submissions are currently closed. You can only edit pending submissions.");
    check(user_patch_notes("x"), submission(SubmissionStatus::Pending), PLAYER, PatchContext { level_status: LevelStatus::Legacy, ..ctx }, PatchRejection::LegacyLevel, 400, "This level is on the legacy list and is not accepting records!");
    check(user_patch_notes("x"), submission(SubmissionStatus::Pending), PLAYER, PatchContext { level_status: LevelStatus::Removed, ..ctx }, PatchRejection::RemovedLevel, 410, "This level has been removed from the list.");
}

#[test]
fn pending_submission_editable_while_closed() {
    let ctx = PatchContext { submissions_enabled: false, ..open_ctx() };
    assert!(SubmissionPatchUser::patch(user_patch_notes("x"), submission(SubmissionStatus::Pending), PLAYER, &ctx).is_ok());
}

#[test]
fn ban_level_one_may_still_edit() {
    let ctx = PatchContext { editor_ban_level: 1, ..open_ctx() };
    assert!(SubmissionPatchUser::patch(user_patch_notes("x"), submission(SubmissionStatus::Pending), PLAYER, &ctx).is_ok());
}

// ---- moderator edits ----

fn mod_patch_status(st: SubmissionStatus) -> SubmissionPatchMod {
    SubmissionPatchMod { status: Some(st), ..Default::default() }
}

#[test]
fn reviewer_edit_of_own_submission_is_user_edit() {
    let mut own = submission(SubmissionStatus::Denied);
    own.submitted_by = REVIEWER;
    let patch = SubmissionPatchMod { user_notes: Some("n".to_string()), status: Some(SubmissionStatus::Accepted), ..Default::default() };
    let out = SubmissionPatchMod::patch(patch, own.clone(), REVIEWER, &open_ctx()).unwrap();
    assert_eq!(out.submission.status, SubmissionStatus::Pending);
    assert_eq!(out.submission.reviewer_id, None);
    assert_eq!(out.effects.notification, None);
    assert_eq!(out.effects.event, None);
    assert!(!out.effects.counts_toward_shift);
    // only moderator fields: nothing a submitter may change
    let e = SubmissionPatchMod::patch(mod_patch_status(SubmissionStatus::Accepted), own, REVIEWER, &open_ctx()).err();
    assert_eq!(e, Some(PatchRejection::NoChanges));
}

#[test]
fn reviewer_needs_claim_without_full_permission() {
    let ctx = open_ctx();
    let e = SubmissionPatchMod::patch(mod_patch_status(SubmissionStatus::Denied), submission(SubmissionStatus::Pending), REVIEWER, &ctx).err().unwrap();
    assert_eq!(e, PatchRejection::NotPermitted);
    assert_eq!(e.status_code(), 403);
    assert_eq!(e.message(), "You do not have permission to edit this submission.");
    let mut claimed = submission(SubmissionStatus::Claimed);
    claimed.reviewer_id = Some(REVIEWER);
    assert!(SubmissionPatchMod::patch(mod_patch_status(SubmissionStatus::Denied), claimed.clone(), REVIEWER, &ctx).is_ok());
    let mut with_raw = claimed.clone();
    with_raw.raw_url = Some("raw".to_string());
    assert_eq!(SubmissionPatchMod::patch(mod_patch_status(SubmissionStatus::Denied), with_raw.clone(), REVIEWER, &ctx).err(), Some(PatchRejection::NotPermitted));
    let full = PatchContext { edit_non_claimed: true, ..ctx };
    assert!(SubmissionPatchMod::patch(mod_patch_status(SubmissionStatus::Denied), with_raw, REVIEWER, &full).is_ok());
    assert_eq!(SubmissionPatchMod::patch(SubmissionPatchMod::default(), claimed, REVIEWER, &ctx).err(), Some(PatchRejection::NoChanges));
}

#[test]
fn reviewer_edit_records_reviewer_and_effects() {
    let mut claimed = submission(SubmissionStatus::Claimed);
    claimed.reviewer_id = Some(OTHER);
    let patch = SubmissionPatchMod {
        status: Some(SubmissionStatus::Accepted),
        priority: Some(true),
        locked: Some(true),
        reviewer_notes: Some("gg".to_string()),
        ..Default::default()
    };
    let full = PatchContext { edit_non_claimed: true, ..open_ctx() };
    let out = SubmissionPatchMod::patch(patch, claimed, REVIEWER, &full).unwrap();
    assert_eq!(out.submission.reviewer_id, Some(REVIEWER));
    assert_eq!(out.submission.status, SubmissionStatus::Accepted);
    assert!(out.submission.priority && out.submission.locked);
    assert_eq!(out.submission.reviewer_notes.as_deref(), Some("gg"));
    assert_eq!(out.submission.submitted_by, PLAYER);
    assert_eq!(out.effects.notification, Some(NotificationType::Success));
    assert_eq!(out.effects.event, Some(SubmissionEvent::Accepted));
    assert!(out.effects.counts_toward_shift);
}

#[test]
fn downgrade_keeps_submitter_fields() {
    let p = SubmissionPatchMod {
        mobile: Some(true),
        video_url: Some("v".to_string()),
        status: Some(SubmissionStatus::Denied),
        ..Default::default()
    };
    assert!(!p.has_no_changes());
    let d = SubmissionPatchMod::downgrade(p);
    assert_eq!(d.mobile, Some(true));
    assert_eq!(d.video_url.as_deref(), Some("v"));
    assert!(!d.has_no_changes());
    assert!(SubmissionPatchUser::default().has_no_changes());
}

// ---- moderation decisions ----

#[test]
fn deny_twice_is_refused() {
    let notes = ReviewerNotes { notes: Some("no".to_string()) };
    let d = Submission::reject(submission(SubmissionStatus::Claimed), REVIEWER, notes.notes, 500).unwrap();
    assert_eq!(d.history.submission_id, 1);
    assert_eq!(d.history.status, Denied);
    assert_eq!(d.history.record_id, None);
    assert_eq!(d.history.reviewer_id, Some(REVIEWER));
    assert_eq!(d.history.reviewer_notes.as_deref(), Some("no"));
    assert_eq!(d.history.user_notes, None);
    assert_eq!(d.history.timestamp, 500);
    assert_eq!(d.notification, NotificationType::Failure);
    assert!(d.counts_toward_shift);
    let s = d.submission;
    assert_eq!(s.status, SubmissionStatus::Denied);
    assert_eq!(s.reviewer_id, Some(REVIEWER));
    assert_eq!(s.reviewer_notes.as_deref(), Some("no"));
    assert_eq!(s.updated_at, 500);
    assert_eq!(s.created_at, 100);
    let e = Submission::reject(s, OTHER, None, 600).err().unwrap();
    assert_eq!(e, ReviewRejection::AlreadyDenied);
    assert_eq!(e.status_code(), 409);
    assert_eq!(e.message(), "This submission is already in the denied state!");
}

#[test]
fn under_consideration_twice_is_refused() {
    let d = Submission::under_consideration(submission(SubmissionStatus::Claimed), REVIEWER, Some("look".to_string()), 5).unwrap();
    assert_eq!(d.history.status, UnderConsideration);
    assert_eq!(d.history.reviewer_notes.as_deref(), Some("look"));
    assert_eq!(d.history.reviewer_id, Some(REVIEWER));
    assert_eq!(d.history.timestamp, 5);
    assert_eq!(d.notification, NotificationType::Info);
    assert!(d.counts_toward_shift);
    let s = d.submission;
    assert_eq!(s.status, SubmissionStatus::UnderConsideration);
    assert_eq!(s.reviewer_notes.as_deref(), Some("look"));
    assert_eq!(s.reviewer_id, Some(REVIEWER));
    let e = Submission::under_consideration(s, REVIEWER, None, 6).err().unwrap();
    assert_eq!(e, ReviewRejection::AlreadyUnderConsideration);
    assert_eq!(e.message(), "This submission is already in the under consideration state!");
}

#[test]
fn unclaim_returns_to_queue() {
    let mut claimed = submission(SubmissionStatus::Claimed);
    claimed.reviewer_id = Some(REVIEWER);
    let s = Submission::unclaim(claimed, 9).unwrap();
    assert_eq!(s.status, SubmissionStatus::Pending);
    assert_eq!(s.reviewer_id, None);
    assert_eq!(s.updated_at, 9);
    let e = Submission::unclaim(s, 10).err().unwrap();
    assert_eq!(e, ReviewRejection::NotClaimed);
    assert_eq!(e.message(), "This submission is not claimed!");
}

#[test]
fn accept_builds_record() {
    let mut sub = submission(SubmissionStatus::Claimed);
    sub.mobile = true;
    sub.raw_url = Some("raw".to_string());
    let plan = Submission::accept(sub, REVIEWER, Some("nice".to_string()), Some(77), 1234);
    assert_eq!(plan.update, Some(77));
    assert_eq!(plan.record.submitted_by, PLAYER);
    assert_eq!(plan.record.level_id, 2);
    assert!(plan.record.mobile);
    assert_eq!(plan.record.raw_url.as_deref(), Some("raw"));
    assert_eq!(plan.record.reviewer_id, Some(REVIEWER));
    assert_eq!(plan.record.reviewer_notes.as_deref(), Some("nice"));
    assert_eq!(plan.record.updated_at, 1234);
    assert_eq!(plan.remove, 1);
    assert_eq!(plan.history.submission_id, 1);
    assert_eq!(plan.history.record_id, Some(77));
    assert_eq!(plan.history.status, Accepted);
    assert_eq!(plan.history.reviewer_id, Some(REVIEWER));
    assert_eq!(plan.history.reviewer_notes.as_deref(), Some("nice"));
    assert_eq!(plan.history.timestamp, 1234);
    assert_eq!(plan.notification, NotificationType::Success);
    assert!(plan.counts_toward_shift);
    let fresh = Submission::accept(submission(SubmissionStatus::Pending), REVIEWER, None, None, 1);
    assert_eq!(fresh.update, None);
    assert_eq!(fresh.history.record_id, None);
    let logged = fresh.history.for_record(500);
    assert_eq!(logged.record_id, Some(500));
    assert_eq!(logged.status, Accepted);
}

// ---- status effects and shifts ----

#[test]
fn status_effects_table() {
    let e = status_effects(Claimed, Accepted);
    assert_eq!((e.notification, e.event, e.counts_toward_shift), (Some(NotificationType::Success), Some(SubmissionEvent::Accepted), true));
    let e = status_effects(Pending, Denied);
    assert_eq!((e.notification, e.event, e.counts_toward_shift), (Some(NotificationType::Failure), Some(SubmissionEvent::Denied), true));
    let e = status_effects(UnderReview, UnderConsideration);
    assert_eq!((e.notification, e.event, e.counts_toward_shift), (Some(NotificationType::Info), Some(SubmissionEvent::UnderConsideration), true));
    let e = status_effects(Pending, UnderReview);
    assert_eq!((e.notification, e.event, e.counts_toward_shift), (None, Some(SubmissionEvent::UnderReview), false));
    let e = status_effects(Denied, Accepted);
    assert_eq!((e.notification, e.event, e.counts_toward_shift), (Some(NotificationType::Success), Some(SubmissionEvent::Accepted), false));
    let e = status_effects(Pending, Claimed);
    assert_eq!((e.notification, e.event, e.counts_toward_shift), (None, None, false));
    for st in [Pending, Claimed, UnderConsideration, Denied, Accepted, UnderReview] {
        let e = status_effects(st, st);
        assert_eq!((e.notification, e.event, e.counts_toward_shift), (None, None, false));
        assert!(!counts_toward_shift(st, st));
    }
}

#[test]
fn event_names() {
    assert_eq!(SubmissionEvent::Created.name(), "SUBMISSION_CREATED");
    assert_eq!(SubmissionEvent::Accepted.name(), "SUBMISSION_ACCEPTED");
    assert_eq!(SubmissionEvent::Denied.name(), "SUBMISSION_DENIED");
    assert_eq!(SubmissionEvent::UnderConsideration.name(), "SUBMISSION_UNDER_CONSIDERATION");
    assert_eq!(SubmissionEvent::UnderReview.name(), "SUBMISSION_UNDER_REVIEW");
    assert_eq!(SubmissionEvent::ShiftCompleted.name(), "SHIFT_COMPLETED");
}

#[test]
fn shift_completion() {
    assert!(shift_completed(10, 10));
    assert!(shift_completed(11, 10));
    assert!(!shift_completed(9, 10));
}

#[test]
fn deleting_submissions() {
    let pending = submission(Pending);
    assert!(Submission::may_delete(&pending, PLAYER, false));
    assert!(!Submission::may_delete(&pending, OTHER, false));
    assert!(Submission::may_delete(&pending, OTHER, true));
    let denied = submission(Denied);
    assert!(!Submission::may_delete(&denied, PLAYER, false));
    assert!(Submission::may_delete(&denied, REVIEWER, true));
}

fn window(id: u128, running: bool, start_at: i64, end_at: i64) -> Shift {
    Shift { id, running, start_at, end_at, completed_count: 0, target_count: 10 }
}

#[test]
fn current_shift_is_earliest_running() {
    let shifts = vec![
        window(1, true, 10, 20),
        window(2, false, 0, 100),
        window(3, true, 5, 15),
        window(4, true, 5, 30),
        window(5, true, 20, 40),
    ];
    assert_eq!(Shift::current(&shifts, 12), Some(2));
    assert_eq!(Shift::current(&shifts, 15), Some(3));
    assert_eq!(Shift::current(&shifts, 20), Some(3));
    assert_eq!(Shift::current(&shifts, 40), None);
    assert_eq!(Shift::current(&shifts, 4), None);
    assert_eq!(Shift::current(&Vec::new(), 4), None);
}

#[test]
fn shift_completes_at_target() {
    let mut s = window(7, true, 0, 100);
    s.target_count = 1;
    match Shift::after_status_change(Claimed, Accepted, &vec![s], 50) {
        ShiftUpdate::Counted { index, shift, completed } => {
            assert_eq!(index, 0);
            assert_eq!(shift.completed_count, 1);
            assert!(completed);
            assert!(!shift.running);
        }
        other => panic!("unexpected {:?}", other),
    }
    let mut s = window(7, true, 0, 100);
    s.completed_count = 8;
    match Shift::count_decision(&vec![s], 50) {
        ShiftUpdate::Counted { shift, completed, .. } => {
            assert_eq!(shift.completed_count, 9);
            assert!(!completed);
            assert!(shift.running);
        }
        other => panic!("unexpected {:?}", other),
    }
}

#[test]
fn shift_not_counted_or_not_running() {
    let s = window(7, true, 0, 100);
    assert_eq!(Shift::after_status_change(Accepted, Denied, &vec![s], 50), ShiftUpdate::NotCounted);
    assert_eq!(Shift::after_status_change(Pending, Pending, &vec![s], 50), ShiftUpdate::NotCounted);
    assert_eq!(Shift::after_status_change(Pending, Denied, &vec![s], 100), ShiftUpdate::NoRunningShift);
    assert_eq!(Shift::count_decision(&Vec::new(), 1), ShiftUpdate::NoRunningShift);
    let mut full = s;
    full.completed_count = i32::MAX;
    assert_eq!(Shift::count_decision(&vec![full], 50), ShiftUpdate::CountFull { index: 0 });
}

#[test]
fn claim_then_unclaim_restores_submission() {
    let pending = submission(Pending);
    let claimed = Submission::claim(pending.clone(), REVIEWER, 200);
    assert_eq!(claimed.status, Claimed);
    assert_eq!(claimed.reviewer_id, Some(REVIEWER));
    assert_eq!(claimed.updated_at, 200);
    let back = Submission::unclaim(claimed, 300).unwrap();
    assert_eq!(back.status, pending.status);
    assert_eq!(back.reviewer_id, pending.reviewer_id);
    assert_eq!(back.id, pending.id);
    assert_eq!(back.video_url, pending.video_url);
    assert_eq!(back.updated_at, 300);
}
