use vstd::prelude::*;

verus! {

/// Whether a level's LDM id may be used in records.
#[derive(Debug, Clone, Copy, PartialEq, Eq, Structural)]
pub enum LevelLDMStatus {
    /// The id suggested for use; one per type per level.
    Published,
    /// Not the suggested id, but allowed in records.
    Allowed,
    /// Cannot be used in records.
    Banned,
}

/// What kind of copy of a level an LDM id is.
#[derive(Debug, Clone, Copy, PartialEq, Eq, Structural)]
pub enum LevelLDMType {
    /// Fixes a bug in the official level.
    Bugfix,
    /// Made for use with Globed Deathlink.
    GlobedCopy,
    /// A Low Detail Mode of the official level.
    Ldm,
    Other,
}

/// A stored LDM entry. `created_at` is in microseconds since the UNIX epoch.
#[derive(Debug, Clone)]
pub struct LevelLDM {
    pub id: u128,
    pub level_id: u128,
    pub ldm_id: i32,
    pub added_by: u128,
    pub id_type: LevelLDMType,
    pub status: LevelLDMStatus,
    pub description: Option<String>,
    pub created_at: i64,
}

/// An LDM entry with the moderator who added it resolved to the user summary `U`.
#[derive(Debug, Clone)]
pub struct LevelLDMResolved<U> {
    pub id: u128,
    pub level_id: u128,
    pub ldm_id: i32,
    pub id_type: LevelLDMType,
    pub status: LevelLDMStatus,
    pub added_by: U,
    pub description: Option<String>,
    pub created_at: i64,
}

/// The row written for a new LDM entry.
#[derive(Debug, Clone)]
pub struct LevelLDMInsert {
    pub level_id: u128,
    pub ldm_id: i32,
    pub id_type: LevelLDMType,
    pub status: LevelLDMStatus,
    pub description: Option<String>,
    pub added_by: u128,
}

/// Changes to an LDM entry; `None` leaves a field as it is, and
/// `description: Some(None)` clears the description.
#[derive(Debug, Clone)]
pub struct LevelLDMUpdate {
    pub ldm_id: Option<i32>,
    pub id_type: Option<LevelLDMType>,
    pub status: Option<LevelLDMStatus>,
    pub description: Option<Option<String>>,
}

/// A new LDM entry as sent by a moderator.
#[derive(Debug, Clone)]
pub struct LevelLDMBody {
    pub ldm_id: i32,
    pub id_type: LevelLDMType,
    pub status: LevelLDMStatus,
    pub description: Option<String>,
}

/// Why an LDM entry is refused.
#[derive(Debug, Clone, Copy, PartialEq, Eq, Structural)]
pub enum LdmRejection {
    /// The level already has a published id of this type.
    PublishedExists,
}

impl LdmRejection {
    /// HTTP status of the refusal: a conflict with the stored entries.
    pub fn status_code(&self) -> (r: u16)
        ensures
            r == 409,
    {
        409
    }

    /// Message of the refusal.
    pub fn message(&self) -> (r: &'static str)
        ensures
            r@ == "This level already has a published id of this type."@,
    {
        "This level already has a published id of this type."
    }
}

/// `e` is the published id of type `id_type` of the level `level_id`.
pub open spec fn is_published_as(e: LevelLDM, level_id: u128, id_type: LevelLDMType) -> bool {
    e.level_id == level_id && e.id_type == id_type && e.status == LevelLDMStatus::Published
}

/// Some entry of `entries`, other than the one with id `except`, is the published
/// id of type `id_type` of the level `level_id`.
pub open spec fn has_published(entries: Seq<LevelLDM>, level_id: u128, id_type: LevelLDMType, except: Option<u128>) -> bool {
    exists|j: int| 0 <= j < entries.len() && is_published_as(#[trigger] entries[j], level_id, id_type)
        && (except is None || entries[j].id != except->0)
}

/// Each level has at most one published id of each type.
pub open spec fn one_published_per_type(entries: Seq<LevelLDM>) -> bool {
    forall|i: int, j: int| 0 <= i < j < entries.len() && #[trigger] entries[i].status == LevelLDMStatus::Published
        && #[trigger] entries[j].status == LevelLDMStatus::Published ==> !(entries[i].level_id == entries[j].level_id
            && entries[i].id_type == entries[j].id_type)
}

pub open spec fn spec_ldm_insert(body: LevelLDMBody, level_id: u128, added_by: u128) -> LevelLDMInsert {
    LevelLDMInsert {
        level_id,
        ldm_id: body.ldm_id,
        id_type: body.id_type,
        status: body.status,
        description: body.description,
        added_by,
    }
}

pub open spec fn spec_ldm_updated(old: LevelLDM, data: LevelLDMUpdate) -> LevelLDM {
    LevelLDM {
        ldm_id: match data.ldm_id { Some(v) => v, None => old.ldm_id },
        id_type: match data.id_type { Some(v) => v, None => old.id_type },
        status: match data.status { Some(v) => v, None => old.status },
        description: match data.description { Some(v) => v, None => old.description },
        ..old
    }
}

/// The stored entry made of an accepted new entry, once it has its id and time.
pub open spec fn ldm_of_insert(ins: LevelLDMInsert, id: u128, created_at: i64) -> LevelLDM {
    LevelLDM {
        id,
        level_id: ins.level_id,
        ldm_id: ins.ldm_id,
        added_by: ins.added_by,
        id_type: ins.id_type,
        status: ins.status,
        description: ins.description,
        created_at,
    }
}

/// Whether some entry of `entries`, other than the one with id `except`, is the
/// published id of type `id_type` of the level `level_id`.
fn find_published(entries: &Vec<LevelLDM>, level_id: u128, id_type: LevelLDMType, except: Option<u128>) -> (r: bool)
    ensures
        r == has_published(entries@, level_id, id_type, except),
{
    let n = entries.len();
    for k in 0..n
        invariant
            n == entries@.len(),
            forall|j: int| 0 <= j < k ==> !(is_published_as(#[trigger] entries@[j], level_id, id_type)
                && (except is None || entries@[j].id != except->0)),
    {
        let e = &entries[k];
        if e.level_id == level_id && e.id_type == id_type && e.status == LevelLDMStatus::Published {
            let other = match except {
                Some(x) => e.id != x,
                None => true,
            };
            if other {
                return true;
            }
        }
    }
    false
}

impl LevelLDM {
    /// The row for a new LDM entry of level `level_id`, added by `added_by`, given
    /// the stored entries `existing`. A level keeps at most one published id of
    /// each type: a second one is refused.
    pub fn create(body: LevelLDMBody, level_id: u128, added_by: u128, existing: &Vec<LevelLDM>) -> (r: Result<LevelLDMInsert, LdmRejection>)
        ensures
            r == if body.status == LevelLDMStatus::Published && has_published(existing@, level_id, body.id_type, None) {
                Err::<LevelLDMInsert, LdmRejection>(LdmRejection::PublishedExists)
            } else {
                Ok(spec_ldm_insert(body, level_id, added_by))
            },
    {
        if body.status == LevelLDMStatus::Published && find_published(existing, level_id, body.id_type, None) {
            return Err(LdmRejection::PublishedExists);
        }
        Ok(LevelLDMInsert {
            level_id,
            status: body.status,
            id_type: body.id_type,
            ldm_id: body.ldm_id,
            description: body.description,
            added_by,
        })
    }

    /// The entry after the changes `data`, given the stored entries `existing`.
    /// A change that would make it a second published id of its type for its
    /// level is refused.
    pub fn update(self, data: LevelLDMUpdate, existing: &Vec<LevelLDM>) -> (r: Result<LevelLDM, LdmRejection>)
        ensures
            r == ({
                let u = spec_ldm_updated(self, data);
                if u.status == LevelLDMStatus::Published && has_published(existing@, u.level_id, u.id_type, Some(self.id)) {
                    Err::<LevelLDM, LdmRejection>(LdmRejection::PublishedExists)
                } else {
                    Ok(u)
                }
            }),
    {
        let id = self.id;
        let u = LevelLDM {
            ldm_id: match data.ldm_id { Some(v) => v, None => self.ldm_id },
            id_type: match data.id_type { Some(v) => v, None => self.id_type },
            status: match data.status { Some(v) => v, None => self.status },
            description: match data.description { Some(v) => v, None => self.description },
            ..self
        };
        if u.status == LevelLDMStatus::Published && find_published(existing, u.level_id, u.id_type, Some(id)) {
            return Err(LdmRejection::PublishedExists);
        }
        Ok(u)
    }
}

/// A new entry carries the fields of the body it was made from, the level it
/// was made for and the moderator who added it; it is refused only when it would
/// be a second published id of its type for the level.
pub proof fn lemma_create_takes_body(body: LevelLDMBody, level_id: u128, added_by: u128, existing: Seq<LevelLDM>)
    ensures
        ({
            let ins = spec_ldm_insert(body, level_id, added_by);
            &&& ins.level_id == level_id
            &&& ins.added_by == added_by
            &&& ins.ldm_id == body.ldm_id
            &&& ins.id_type == body.id_type
            &&& ins.status == body.status
            &&& ins.description == body.description
        }),
        has_published(existing, level_id, body.id_type, None) <==> exists|j: int| 0 <= j < existing.len()
            && (#[trigger] existing[j]).level_id == level_id && existing[j].id_type == body.id_type
            && existing[j].status == LevelLDMStatus::Published,
        forall|id: u128| has_published(existing, level_id, body.id_type, Some(id)) <==> exists|j: int| 0 <= j < existing.len()
            && (#[trigger] existing[j]).level_id == level_id && existing[j].id_type == body.id_type
            && existing[j].status == LevelLDMStatus::Published && existing[j].id != id,
{
}

/// A change to an entry takes every field it gives (a given `Some(None)`
/// description clears it) and keeps the rest, its id, level, author and
/// creation time included.
pub proof fn lemma_update_takes_fields(old: LevelLDM, data: LevelLDMUpdate)
    ensures
        ({
            let u = spec_ldm_updated(old, data);
            &&& u.id == old.id && u.level_id == old.level_id && u.added_by == old.added_by && u.created_at == old.created_at
            &&& (data.ldm_id matches Some(v) ==> u.ldm_id == v) && (data.ldm_id is None ==> u.ldm_id == old.ldm_id)
            &&& (data.id_type matches Some(v) ==> u.id_type == v) && (data.id_type is None ==> u.id_type == old.id_type)
            &&& (data.status matches Some(v) ==> u.status == v) && (data.status is None ==> u.status == old.status)
            &&& (data.description matches Some(v) ==> u.description == v)
            &&& (data.description is None ==> u.description == old.description)
        }),
{
}

/// A new entry accepted by `create` keeps each level at one published id per type.
pub proof fn lemma_create_keeps_one_published(
    existing: Seq<LevelLDM>,
    body: LevelLDMBody,
    level_id: u128,
    added_by: u128,
    id: u128,
    created_at: i64,
)
    requires
        one_published_per_type(existing),
        !(body.status == LevelLDMStatus::Published && has_published(existing, level_id, body.id_type, None)),
    ensures
        one_published_per_type(existing.push(ldm_of_insert(spec_ldm_insert(body, level_id, added_by), id, created_at))),
{
    let s = existing.push(ldm_of_insert(spec_ldm_insert(body, level_id, added_by), id, created_at));
    assert forall|i: int, j: int| 0 <= i < j < s.len() && #[trigger] s[i].status == LevelLDMStatus::Published
        && #[trigger] s[j].status == LevelLDMStatus::Published implies !(s[i].level_id == s[j].level_id
            && s[i].id_type == s[j].id_type) by {
        if j == existing.len() {
            if s[i].level_id == s[j].level_id && s[i].id_type == s[j].id_type {
                assert(is_published_as(existing[i], level_id, body.id_type));
            }
        } else {
            assert(s[i] == existing[i] && s[j] == existing[j]);
        }
    }
}

/// A change accepted by `update`, on entries whose ids are distinct, keeps each
/// level at one published id per type.
pub proof fn lemma_update_keeps_one_published(existing: Seq<LevelLDM>, k: int, data: LevelLDMUpdate)
    requires
        one_published_per_type(existing),
        0 <= k < existing.len(),
        forall|i: int, j: int| 0 <= i < j < existing.len() ==> #[trigger] existing[i].id != #[trigger] existing[j].id,
        ({
            let u = spec_ldm_updated(existing[k], data);
            !(u.status == LevelLDMStatus::Published && has_published(existing, u.level_id, u.id_type, Some(existing[k].id)))
        }),
    ensures
        one_published_per_type(existing.update(k, spec_ldm_updated(existing[k], data))),
{
    let u = spec_ldm_updated(existing[k], data);
    let s = existing.update(k, u);
    assert forall|i: int, j: int| 0 <= i < j < s.len() && #[trigger] s[i].status == LevelLDMStatus::Published
        && #[trigger] s[j].status == LevelLDMStatus::Published implies !(s[i].level_id == s[j].level_id
            && s[i].id_type == s[j].id_type) by {
        if i == k {
            if s[i].level_id == s[j].level_id && s[i].id_type == s[j].id_type {
                assert(existing[j].id != existing[k].id);
                assert(is_published_as(existing[j], u.level_id, u.id_type));
            }
        } else if j == k {
            if s[i].level_id == s[j].level_id && s[i].id_type == s[j].id_type {
                assert(existing[i].id != existing[k].id);
                assert(is_published_as(existing[i], u.level_id, u.id_type));
            }
        } else {
            assert(s[i] == existing[i] && s[j] == existing[j]);
        }
    }
}

impl<U> LevelLDMResolved<U> {
    /// Joins an LDM entry with the moderator who added it.
    pub fn from_data(ldm: LevelLDM, moderator: U) -> (r: Self)
        ensures
            r.id == ldm.id,
            r.level_id == ldm.level_id,
            r.ldm_id == ldm.ldm_id,
            r.id_type == ldm.id_type,
            r.status == ldm.status,
            r.added_by == moderator,
            r.description == ldm.description,
            r.created_at == ldm.created_at,
    {
        LevelLDMResolved {
            id: ldm.id,
            level_id: ldm.level_id,
            ldm_id: ldm.ldm_id,
            id_type: ldm.id_type,
            status: ldm.status,
            added_by: moderator,
            description: ldm.description,
            created_at: ldm.created_at,
        }
    }
}

} // verus!
