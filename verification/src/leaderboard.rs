use vstd::prelude::*;

verus! {

/// Orders of the player leaderboard.
#[derive(Debug, Clone, Copy, PartialEq, Eq, Structural)]
pub enum LeaderboardOrder {
    /// Sort by total points (including packs).
    TotalPoints,
    /// Sort by total points (excluding packs).
    RawPoints,
    /// Sort by count of extremes completed.
    ExtremeCount,
}

/// The stored rank a leaderboard is sorted by.
#[derive(Debug, Clone, Copy, PartialEq, Eq, Structural)]
pub enum RankColumn {
    Rank,
    ExtremesRank,
    RawRank,
    CountryRank,
    CountryExtremesRank,
    CountryRawRank,
}

/// Filters and order of the player leaderboard.
#[derive(Debug, Clone)]
pub struct LeaderboardQueryOptions {
    pub name_filter: Option<String>,
    pub country_filter: Option<i32>,
    pub clan_filter: Option<u128>,
    pub order: Option<LeaderboardOrder>,
}

/// A stored leaderboard row.
#[derive(Debug, Clone, Copy)]
pub struct LeaderboardEntry {
    pub rank: i32,
    pub extremes_rank: i32,
    pub raw_rank: i32,
    pub country_rank: i32,
    pub country_extremes_rank: i32,
    pub country_raw_rank: i32,
    pub user_id: u128,
    pub country: Option<i32>,
    pub total_points: i32,
    pub pack_points: i32,
    pub hardest: Option<u128>,
    pub extremes: i32,
    pub clan_id: Option<u128>,
}

/// A leaderboard row with its user (`U`), clan (`C`) and hardest level (`L`) resolved.
#[derive(Debug, Clone)]
pub struct LeaderboardEntryResolved<U, C, L> {
    /// Rank of the user in the global leaderboard, sorted by total points (including packs).
    pub rank: i32,
    /// Rank of the user in the global leaderboard, sorted by count of extremes completed.
    pub extremes_rank: i32,
    /// Rank of the user in the global leaderboard, sorted by total points (excluding packs).
    pub raw_rank: i32,
    /// Rank of the user in the country leaderboard, sorted by total points (including packs).
    pub country_rank: i32,
    /// Rank of the user in the country leaderboard, sorted by count of extremes completed.
    pub country_extremes_rank: i32,
    /// Rank of the user in the country leaderboard, sorted by total points (excluding packs).
    pub country_raw_rank: i32,
    /// This entry's user.
    pub user: U,
    /// Country of the user (ISO 3166-1 numeric code).
    pub country: Option<i32>,
    /// Total points of the user, including pack points.
    pub total_points: i32,
    /// Pack points of the user.
    pub pack_points: i32,
    /// Hardest level the user has completed.
    pub hardest: Option<L>,
    /// Count of extremes the user has completed.
    pub extremes: i32,
    /// The user's clan, if any.
    pub clan: Option<C>,
}

pub open spec fn spec_rank_column(by_country: bool, order: Option<LeaderboardOrder>) -> RankColumn {
    let order = match order {
        Some(o) => o,
        None => LeaderboardOrder::TotalPoints,
    };
    match (by_country, order) {
        (false, LeaderboardOrder::TotalPoints) => RankColumn::Rank,
        (false, LeaderboardOrder::ExtremeCount) => RankColumn::ExtremesRank,
        (false, LeaderboardOrder::RawPoints) => RankColumn::RawRank,
        (true, LeaderboardOrder::TotalPoints) => RankColumn::CountryRank,
        (true, LeaderboardOrder::ExtremeCount) => RankColumn::CountryExtremesRank,
        (true, LeaderboardOrder::RawPoints) => RankColumn::CountryRawRank,
    }
}

impl LeaderboardQueryOptions {
    /// The rank the leaderboard is sorted by: the requested order (total points by
    /// default), within the country when the list is filtered to one country.
    /// Players with equal rank follow in user-id order.
    pub fn rank_column(&self) -> (r: RankColumn)
        ensures
            r == spec_rank_column(self.country_filter is Some, self.order),
    {
        let order = match self.order {
            Some(o) => o,
            None => LeaderboardOrder::TotalPoints,
        };
        match (self.country_filter.is_some(), order) {
            (false, LeaderboardOrder::TotalPoints) => RankColumn::Rank,
            (false, LeaderboardOrder::ExtremeCount) => RankColumn::ExtremesRank,
            (false, LeaderboardOrder::RawPoints) => RankColumn::RawRank,
            (true, LeaderboardOrder::TotalPoints) => RankColumn::CountryRank,
            (true, LeaderboardOrder::ExtremeCount) => RankColumn::CountryExtremesRank,
            (true, LeaderboardOrder::RawPoints) => RankColumn::CountryRawRank,
        }
    }
}

pub open spec fn spec_resolve_entry<U, C, L>(row: (LeaderboardEntry, U, Option<C>, Option<L>)) -> LeaderboardEntryResolved<U, C, L> {
    let e = row.0;
    LeaderboardEntryResolved {
        rank: e.rank,
        extremes_rank: e.extremes_rank,
        raw_rank: e.raw_rank,
        country_rank: e.country_rank,
        country_extremes_rank: e.country_extremes_rank,
        country_raw_rank: e.country_raw_rank,
        user: row.1,
        country: e.country,
        total_points: e.total_points,
        pack_points: e.pack_points,
        hardest: row.3,
        extremes: e.extremes,
        clan: row.2,
    }
}

impl<U, C, L> LeaderboardEntryResolved<U, C, L> {
    /// Joins a leaderboard row with its user, clan and hardest level.
    pub fn from_data(row: (LeaderboardEntry, U, Option<C>, Option<L>)) -> (r: Self)
        ensures
            r == spec_resolve_entry(row),
    {
        let (e, user, clan, hardest) = row;
        LeaderboardEntryResolved {
            rank: e.rank,
            extremes_rank: e.extremes_rank,
            raw_rank: e.raw_rank,
            country_rank: e.country_rank,
            country_extremes_rank: e.country_extremes_rank,
            country_raw_rank: e.country_raw_rank,
            user,
            country: e.country,
            total_points: e.total_points,
            pack_points: e.pack_points,
            hardest,
            extremes: e.extremes,
            clan,
        }
    }

    /// Joins every row of a leaderboard page, keeping their order.
    pub fn resolve_all(rows: Vec<(LeaderboardEntry, U, Option<C>, Option<L>)>) -> (r: Vec<Self>)
        ensures
            r@.len() == rows@.len(),
            forall|i: int| 0 <= i < rows@.len() ==> #[trigger] r@[i] == spec_resolve_entry(rows@[i]),
    {
        let mut out: Vec<Self> = Vec::new();
        let ghost all = rows@;
        for row in it: rows
            invariant
                it.seq() == all,
                out@.len() == it.index(),
                forall|i: int| 0 <= i < it.index() ==> #[trigger] out@[i] == spec_resolve_entry(all[i]),
        {
            out.push(Self::from_data(row));
        }
        out
    }
}

/// A resolved leaderboard entry carries its row's own ranks, points and
/// counts, with the user, clan and hardest level it was joined with.
pub proof fn lemma_resolved_entry_keeps_row<U, C, L>(row: (LeaderboardEntry, U, Option<C>, Option<L>))
    ensures
        ({
            let r = spec_resolve_entry(row);
            let e = row.0;
            &&& r.rank == e.rank
            &&& r.extremes_rank == e.extremes_rank
            &&& r.raw_rank == e.raw_rank
            &&& r.country_rank == e.country_rank
            &&& r.country_extremes_rank == e.country_extremes_rank
            &&& r.country_raw_rank == e.country_raw_rank
            &&& r.country == e.country
            &&& r.total_points == e.total_points
            &&& r.pack_points == e.pack_points
            &&& r.extremes == e.extremes
            &&& r.user == row.1
            &&& r.clan == row.2
            &&& r.hardest == row.3
        }),
{
}

/// The leaderboard is sorted by the rank of the requested order (total points
/// when none is given): the global rank of that order, or the country rank of it
/// when the list is filtered to one country.
pub proof fn lemma_rank_column_follows_order(by_country: bool, order: Option<LeaderboardOrder>)
    ensures
        (order is None || order == Some(LeaderboardOrder::TotalPoints)) ==>
            spec_rank_column(by_country, order) == (if by_country { RankColumn::CountryRank } else { RankColumn::Rank }),
        order == Some(LeaderboardOrder::RawPoints) ==>
            spec_rank_column(by_country, order) == (if by_country { RankColumn::CountryRawRank } else { RankColumn::RawRank }),
        order == Some(LeaderboardOrder::ExtremeCount) ==>
            spec_rank_column(by_country, order) == (if by_country { RankColumn::CountryExtremesRank } else { RankColumn::ExtremesRank }),
{
}

} // verus!
