use vstd::prelude::*;

verus! {

/// A switch of submissions on or off. `created_at` is in microseconds since the
/// UNIX epoch.
#[derive(Debug, Clone, Copy)]
pub struct SubmissionsEnabled {
    pub enabled: bool,
    pub moderator: u128,
    pub created_at: i64,
}

impl SubmissionsEnabled {
    /// Whether submissions are open, given the latest switch if there is one.
    /// Submissions are open until they are first switched off.
    pub fn is_enabled(latest: Option<bool>) -> (r: bool)
        ensures
            r == match latest {
                Some(e) => e,
                None => true,
            },
    {
        match latest {
            Some(e) => e,
            None => true,
        }
    }

    /// The switch a moderator makes when turning submissions on.
    pub fn enable(moderator: u128, now: i64) -> (r: Self)
        ensures
            r == (SubmissionsEnabled { enabled: true, moderator, created_at: now }),
    {
        SubmissionsEnabled { enabled: true, moderator, created_at: now }
    }

    /// The switch a moderator makes when turning submissions off.
    pub fn disable(moderator: u128, now: i64) -> (r: Self)
        ensures
            r == (SubmissionsEnabled { enabled: false, moderator, created_at: now }),
    {
        SubmissionsEnabled { enabled: false, moderator, created_at: now }
    }
}

/// A new text of the submission guidelines.
#[derive(Debug, Clone)]
pub struct GuidelineUpdateBody {
    pub guidelines: String,
}

} // verus!
