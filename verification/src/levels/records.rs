use vstd::prelude::*;

verus! {

/// Filters of a level's record list.
#[derive(Debug, Clone)]
pub struct RecordQuery {
    /// Only players with more than 50 records.
    pub high_extremes: Option<bool>,
    /// Only this submitter (UUID, Discord id or username).
    pub submitter_filter: Option<String>,
}

/// A stored record. `completion_time` is in milliseconds; timestamps are in
/// microseconds since the UNIX epoch.
#[derive(Debug, Clone)]
pub struct Record {
    pub id: u128,
    pub level_id: u128,
    pub submitted_by: u128,
    pub mobile: bool,
    pub is_verification: bool,
    pub video_url: String,
    pub completion_time: i64,
    pub hide_video: bool,
    pub created_at: i64,
    pub updated_at: i64,
}

/// A record of a level with its submitter resolved to the user summary `U`.
#[derive(Debug, Clone)]
pub struct LevelResolvedRecord<U> {
    pub id: u128,
    pub submitted_by: U,
    pub mobile: bool,
    pub video_url: String,
    pub completion_time: i64,
    pub hide_video: bool,
    pub created_at: i64,
    pub updated_at: i64,
}

impl<U> LevelResolvedRecord<U> {
    /// Joins a record with its submitter.
    pub fn from_data(record: Record, user: U) -> (r: Self)
        ensures
            r.id == record.id,
            r.submitted_by == user,
            r.mobile == record.mobile,
            r.video_url == record.video_url,
            r.completion_time == record.completion_time,
            r.hide_video == record.hide_video,
            r.created_at == record.created_at,
            r.updated_at == record.updated_at,
    {
        LevelResolvedRecord {
            id: record.id,
            submitted_by: user,
            mobile: record.mobile,
            video_url: record.video_url,
            completion_time: record.completion_time,
            hide_video: record.hide_video,
            updated_at: record.updated_at,
            created_at: record.created_at,
        }
    }
}

impl RecordQuery {
    /// Whether a record appears in a level's list: verifications do not, nor
    /// records of players with a ban level above 1; with `high_extremes`, only
    /// players with more than 50 records appear.
    pub fn shows(&self, record: &Record, submitter_ban_level: i32, submitter_record_count: i64) -> (r: bool)
        ensures
            r == (!record.is_verification && submitter_ban_level <= 1
                && (self.high_extremes == Some(true) ==> submitter_record_count > 50)),
    {
        if record.is_verification || submitter_ban_level > 1 {
            return false;
        }
        match self.high_extremes {
            Some(true) => submitter_record_count > 50,
            _ => true,
        }
    }
}

} // verus!
