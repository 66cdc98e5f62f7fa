use vstd::prelude::*;
use crate::submissions::model::SubmissionStatus;

verus! {

/// Orders a submission list may be sorted in.
#[derive(Debug, Clone, Copy, PartialEq, Eq, Structural)]
pub enum SubmissionsSortField {
    OldestCreatedAt,
    NewestCreatedAt,
    OldestUpdatedAt,
    NewestUpdatedAt,
}

/// The timestamp a submission list is sorted by.
#[derive(Debug, Clone, Copy, PartialEq, Eq, Structural)]
pub enum SortColumn {
    CreatedAt,
    UpdatedAt,
}

/// A sort column and direction.
#[derive(Debug, Clone, Copy, PartialEq, Eq, Structural)]
pub struct SortOrder {
    pub column: SortColumn,
    pub ascending: bool,
}

/// Filters and order of a submission list. `level_filter` is a level's 128-bit UUID;
/// submitters and moderators are named by UUID, Discord id or username.
#[derive(Debug, Clone)]
pub struct SubmissionQueryOptions {
    pub status_filter: Option<SubmissionStatus>,
    pub mobile_filter: Option<bool>,
    pub level_filter: Option<u128>,
    pub submitter_filter: Option<String>,
    pub priority_filter: Option<bool>,
    pub reviewer_filter: Option<String>,
    pub note_filter: Option<String>,
    pub sort: Option<SubmissionsSortField>,
}

/// A submission row together with its computed priority value. Timestamps are in
/// microseconds since the UNIX epoch.
#[derive(Debug, Clone)]
pub struct SubmissionWithPriority {
    pub id: u128,
    pub level_id: u128,
    pub submitted_by: u128,
    pub mobile: bool,
    pub ldm_id: Option<i32>,
    pub video_url: String,
    pub raw_url: Option<String>,
    pub mod_menu: Option<String>,
    pub status: SubmissionStatus,
    pub reviewer_id: Option<u128>,
    pub priority: bool,
    pub reviewer_notes: Option<String>,
    pub private_reviewer_notes: Option<String>,
    pub user_notes: Option<String>,
    pub locked: bool,
    pub created_at: i64,
    pub updated_at: i64,
    pub priority_value: i64,
}

/// A submission with its level, submitter and moderator resolved. `L` is the level
/// summary and `U` the user summary the caller displays.
#[derive(Debug, Clone)]
pub struct SubmissionResolved<L, U> {
    pub id: u128,
    pub level: L,
    pub submitted_by: U,
    pub mobile: bool,
    pub ldm_id: Option<i32>,
    pub video_url: String,
    pub raw_url: Option<String>,
    pub mod_menu: Option<String>,
    pub status: SubmissionStatus,
    pub reviewer: Option<U>,
    pub private_reviewer_notes: Option<String>,
    pub priority: bool,
    pub reviewer_notes: Option<String>,
    pub user_notes: Option<String>,
    pub locked: bool,
    pub created_at: i64,
    pub updated_at: i64,
    pub priority_value: i64,
}

pub open spec fn spec_sort_order(sort: Option<SubmissionsSortField>) -> SortOrder {
    match sort {
        Some(SubmissionsSortField::OldestCreatedAt) => SortOrder { column: SortColumn::CreatedAt, ascending: true },
        Some(SubmissionsSortField::NewestCreatedAt) => SortOrder { column: SortColumn::CreatedAt, ascending: false },
        Some(SubmissionsSortField::OldestUpdatedAt) => SortOrder { column: SortColumn::UpdatedAt, ascending: true },
        Some(SubmissionsSortField::NewestUpdatedAt) => SortOrder { column: SortColumn::UpdatedAt, ascending: false },
        None => SortOrder { column: SortColumn::CreatedAt, ascending: false },
    }
}

impl SubmissionsSortField {
    /// The order of a submission list: as requested, or newest created first.
    pub fn order(sort: Option<SubmissionsSortField>) -> (r: SortOrder)
        ensures
            r == spec_sort_order(sort),
    {
        match sort {
            Some(SubmissionsSortField::OldestCreatedAt) => SortOrder { column: SortColumn::CreatedAt, ascending: true },
            Some(SubmissionsSortField::NewestCreatedAt) => SortOrder { column: SortColumn::CreatedAt, ascending: false },
            Some(SubmissionsSortField::OldestUpdatedAt) => SortOrder { column: SortColumn::UpdatedAt, ascending: true },
            Some(SubmissionsSortField::NewestUpdatedAt) => SortOrder { column: SortColumn::UpdatedAt, ascending: false },
            None => SortOrder { column: SortColumn::CreatedAt, ascending: false },
        }
    }
}

impl SubmissionQueryOptions {
    /// The options of a player's own list: the submitter is the player, named by the
    /// text of their UUID, and there is no moderator filter.
    pub fn restrict_to_owner(self, user: u128) -> (r: Self)
        ensures
            r.submitter_filter is Some,
            r.submitter_filter->0@ == crate::ids::uuid_text(user),
            r.reviewer_filter is None,
            r.status_filter == self.status_filter,
            r.mobile_filter == self.mobile_filter,
            r.level_filter == self.level_filter,
            r.priority_filter == self.priority_filter,
            r.note_filter == self.note_filter,
            r.sort == self.sort,
    {
        SubmissionQueryOptions {
            submitter_filter: Some(crate::ids::uuid_to_string(user)),
            reviewer_filter: None,
            ..self
        }
    }
}

pub open spec fn spec_hidden_reviewer<L, U>(s: SubmissionResolved<L, U>) -> SubmissionResolved<L, U> {
    SubmissionResolved { reviewer: None, private_reviewer_notes: None, ..s }
}

pub open spec fn spec_resolved_submission<L, U>(row: (SubmissionWithPriority, L, U, Option<U>)) -> SubmissionResolved<L, U> {
    let s = row.0;
    SubmissionResolved {
        id: s.id,
        level: row.1,
        submitted_by: row.2,
        mobile: s.mobile,
        ldm_id: s.ldm_id,
        video_url: s.video_url,
        raw_url: s.raw_url,
        mod_menu: s.mod_menu,
        status: s.status,
        reviewer: row.3,
        private_reviewer_notes: s.private_reviewer_notes,
        priority: s.priority,
        reviewer_notes: s.reviewer_notes,
        user_notes: s.user_notes,
        locked: s.locked,
        created_at: s.created_at,
        updated_at: s.updated_at,
        priority_value: s.priority_value,
    }
}

/// What a viewer sees of a submission: everything for moderators; without
/// moderator and private notes for everyone else.
pub open spec fn spec_visible_submission<L, U>(s: SubmissionResolved<L, U>, is_moderator: bool) -> SubmissionResolved<L, U> {
    if is_moderator {
        s
    } else {
        spec_hidden_reviewer(s)
    }
}

impl<L, U> SubmissionResolved<L, U> {
    /// Joins a submission row with its level, submitter and moderator.
    pub fn from_data(row: (SubmissionWithPriority, L, U, Option<U>)) -> (r: Self)
        ensures
            r == spec_resolved_submission(row),
    {
        let (submission, level, submitter, reviewer) = row;
        SubmissionResolved {
            id: submission.id,
            level,
            submitted_by: submitter,
            mobile: submission.mobile,
            ldm_id: submission.ldm_id,
            video_url: submission.video_url,
            raw_url: submission.raw_url,
            mod_menu: submission.mod_menu,
            status: submission.status,
            reviewer,
            priority: submission.priority,
            reviewer_notes: submission.reviewer_notes,
            private_reviewer_notes: submission.private_reviewer_notes,
            user_notes: submission.user_notes,
            locked: submission.locked,
            created_at: submission.created_at,
            updated_at: submission.updated_at,
            priority_value: submission.priority_value,
        }
    }

    /// A page of submissions as a viewer sees it: every row joined, in order,
    /// and shown as `spec_visible_submission` says.
    pub fn resolve_page(rows: Vec<(SubmissionWithPriority, L, U, Option<U>)>, is_moderator: bool) -> (r: Vec<Self>)
        ensures
            r@.len() == rows@.len(),
            forall|i: int| 0 <= i < rows@.len() ==> #[trigger] r@[i] == spec_visible_submission(spec_resolved_submission(rows@[i]), is_moderator),
    {
        let mut out: Vec<Self> = Vec::new();
        let ghost all = rows@;
        for row in it: rows
            invariant
                it.seq() == all,
                out@.len() == it.index(),
                forall|i: int| 0 <= i < it.index() ==> #[trigger] out@[i] == spec_resolved_submission(all[i]),
        {
            out.push(Self::from_data(row));
        }
        Self::visible_to(&mut out, is_moderator);
        out
    }

    /// One submission as the viewer `viewer` sees it: moderators see any submission
    /// in full; anyone else sees only their own, without moderator and private
    /// notes, and gets `None` for the submissions of others.
    pub fn shown_to(row: (SubmissionWithPriority, L, U, Option<U>), viewer: u128, is_moderator: bool) -> (r: Option<Self>)
        ensures
            r == if is_moderator || row.0.submitted_by == viewer {
                Some(spec_visible_submission(spec_resolved_submission(row), is_moderator))
            } else {
                None::<Self>
            },
    {
        if !is_moderator && row.0.submitted_by != viewer {
            return None;
        }
        let mut resolved = Self::from_data(row);
        if !is_moderator {
            resolved.hide_reviewer();
        }
        Some(resolved)
    }

    /// Hides who handled the submission and their private notes.
    pub fn hide_reviewer(&mut self)
        ensures
            *final(self) == spec_hidden_reviewer(*old(self)),
    {
        self.reviewer = None;
        self.private_reviewer_notes = None;
    }

    /// What a viewer sees of a list of submissions: everything for moderators;
    /// without moderator and private notes for everyone else.
    pub fn visible_to(list: &mut Vec<Self>, is_moderator: bool)
        ensures
            final(list)@.len() == old(list)@.len(),
            forall|i: int| 0 <= i < old(list)@.len() ==> #[trigger] final(list)@[i] == spec_visible_submission(old(list)@[i], is_moderator),
    {
        if is_moderator {
            return;
        }
        let n = list.len();
        for i in 0..n
            invariant
                n == old(list)@.len(),
                list@.len() == n,
                forall|j: int| 0 <= j < i ==> #[trigger] list@[j] == spec_hidden_reviewer(old(list)@[j]),
                forall|j: int| i <= j < n ==> #[trigger] list@[j] == old(list)@[j],
        {
            list[i].hide_reviewer();
        }
    }
}

/// A joined submission carries its row's fields with the given level, submitter
/// and moderator; what a non-moderator sees lacks only the moderator and the
/// private notes, and a moderator sees it whole.
pub proof fn lemma_resolved_submission_fields<L, U>(row: (SubmissionWithPriority, L, U, Option<U>), is_moderator: bool)
    ensures
        ({
            let r = spec_resolved_submission(row);
            let v = spec_visible_submission(r, is_moderator);
            let s = row.0;
            &&& r.id == s.id && r.level == row.1 && r.submitted_by == row.2 && r.reviewer == row.3
            &&& r.mobile == s.mobile && r.ldm_id == s.ldm_id && r.video_url == s.video_url && r.raw_url == s.raw_url
            &&& r.mod_menu == s.mod_menu && r.status == s.status && r.private_reviewer_notes == s.private_reviewer_notes
            &&& r.priority == s.priority && r.reviewer_notes == s.reviewer_notes && r.user_notes == s.user_notes
            &&& r.locked == s.locked && r.created_at == s.created_at && r.updated_at == s.updated_at
            &&& r.priority_value == s.priority_value
            &&& is_moderator ==> v == r
            &&& !is_moderator ==> v.reviewer is None && v.private_reviewer_notes is None
                && v == (SubmissionResolved { reviewer: None, private_reviewer_notes: None, ..r })
        }),
{
}

/// Submission lists are sorted as requested: oldest or newest first, by creation
/// or by last update; newest created first when nothing is requested.
pub proof fn lemma_sort_orders()
    ensures
        spec_sort_order(None) == (SortOrder { column: SortColumn::CreatedAt, ascending: false }),
        spec_sort_order(Some(SubmissionsSortField::OldestCreatedAt)) == (SortOrder { column: SortColumn::CreatedAt, ascending: true }),
        spec_sort_order(Some(SubmissionsSortField::NewestCreatedAt)) == (SortOrder { column: SortColumn::CreatedAt, ascending: false }),
        spec_sort_order(Some(SubmissionsSortField::OldestUpdatedAt)) == (SortOrder { column: SortColumn::UpdatedAt, ascending: true }),
        spec_sort_order(Some(SubmissionsSortField::NewestUpdatedAt)) == (SortOrder { column: SortColumn::UpdatedAt, ascending: false }),
{
}

} // verus!
