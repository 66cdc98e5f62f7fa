//! Verified core of the AREDL backend: the rules that decide what happens to
//! submissions, level identifiers, changelog entries, queues and leaderboards.
//! Database access, HTTP routing and serialization live outside this crate; the
//! functions here take the values those layers read and return the decisions.

pub mod changelog;
pub mod ids;
pub mod leaderboard;
pub mod levels;
pub mod profile;
pub mod submissions;
pub mod text;
