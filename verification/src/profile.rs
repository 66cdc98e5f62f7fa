use vstd::prelude::*;
use vstd::seq_lib::{lemma_multiset_commutative, to_multiset_build, to_multiset_insert};

verus! {

/// A player's ranks and totals on the leaderboards.
#[derive(Debug, Clone, Copy, PartialEq, Eq, Structural)]
pub struct Rank {
    /// Rank in the global leaderboard, sorted by total points (including packs).
    pub rank: i32,
    /// Rank in the global leaderboard, sorted by total points (excluding packs).
    pub raw_rank: i32,
    /// Rank in the global leaderboard, sorted by count of extremes completed.
    pub extremes_rank: i32,
    /// Rank in the country leaderboard, sorted by total points (including packs).
    pub country_rank: i32,
    /// Rank in the country leaderboard, sorted by total points (excluding packs).
    pub country_raw_rank: i32,
    /// Rank in the country leaderboard, sorted by count of extremes completed.
    pub country_extremes_rank: i32,
    /// Total points, including pack points.
    pub total_points: i32,
    /// Pack points.
    pub pack_points: i32,
    /// Count of extremes completed.
    pub extremes: i32,
}

/// A record on a player's profile. `completion_time` is in milliseconds and
/// `created_at` in microseconds since the UNIX epoch.
#[derive(Debug, Clone)]
pub struct ProfileRecord {
    pub id: u128,
    pub mobile: bool,
    pub is_verification: bool,
    pub ldm_id: Option<i32>,
    pub video_url: String,
    pub completion_time: i64,
    pub created_at: i64,
}

/// A profile record with its level resolved to the level summary `L`.
#[derive(Debug, Clone)]
pub struct ProfileRecordResolved<L> {
    pub record: ProfileRecord,
    pub level: L,
}

/// A level with the position it is sorted by.
#[derive(Debug, Clone)]
pub struct PositionedLevel<L> {
    pub position: Option<i32>,
    pub level: L,
}

/// Why a profile is not shown.
#[derive(Debug, Clone, Copy, PartialEq, Eq, Structural)]
pub enum ProfileRejection {
    Banned,
}

impl ProfileRejection {
    /// HTTP status of the refusal.
    pub fn status_code(&self) -> (r: u16)
        ensures
            r == 403,
    {
        403
    }

    /// Message of the refusal.
    pub fn message(&self) -> (r: &'static str)
        ensures
            r@ == "This user has been banned from the list."@,
    {
        "This user has been banned from the list."
    }
}

/// Profiles of banned players are not shown.
pub fn check_profile_visible(is_banned: bool) -> (r: Result<(), ProfileRejection>)
    ensures
        r == if is_banned { Err(ProfileRejection::Banned) } else { Ok::<(), ProfileRejection>(()) },
{
    if is_banned {
        Err(ProfileRejection::Banned)
    } else {
        Ok(())
    }
}

pub open spec fn is_verification_record<L>() -> spec_fn(ProfileRecordResolved<L>) -> bool {
    |r: ProfileRecordResolved<L>| r.record.is_verification
}

pub open spec fn is_plain_record<L>() -> spec_fn(ProfileRecordResolved<L>) -> bool {
    |r: ProfileRecordResolved<L>| !r.record.is_verification
}

impl<L> ProfileRecordResolved<L> {
    /// Splits a player's records into their verifications and their other records,
    /// each keeping the order it had.
    pub fn split_verifications(all: Vec<Self>) -> (r: (Vec<Self>, Vec<Self>))
        ensures
            r.0@ == all@.filter(is_verification_record::<L>()),
            r.1@ == all@.filter(is_plain_record::<L>()),
    {
        let ghost s = all@;
        let mut verified: Vec<Self> = Vec::new();
        let mut records: Vec<Self> = Vec::new();
        proof {
            reveal(Seq::filter);
            assert(s.take(0).filter(is_verification_record::<L>()) =~= Seq::<Self>::empty());
            assert(s.take(0).filter(is_plain_record::<L>()) =~= Seq::<Self>::empty());
        }
        for r in it: all
            invariant
                it.seq() == s,
                verified@ == s.take(it.index() as int).filter(is_verification_record::<L>()),
                records@ == s.take(it.index() as int).filter(is_plain_record::<L>()),
        {
            proof {
                reveal(Seq::filter);
                let i = it.index() as int;
                assert(s.take(i + 1).drop_last() =~= s.take(i));
                assert(s.take(i + 1).last() == s[i]);
            }
            if r.record.is_verification {
                verified.push(r);
            } else {
                records.push(r);
            }
        }
        proof {
            assert(s.take(s.len() as int) =~= s);
        }
        (verified, records)
    }
}

/// Splitting a player's records loses none and duplicates none: the
/// verifications and the other records together are exactly the records (a
/// permutation of them), and so are as many.
pub proof fn lemma_split_is_partition<L>(all: Seq<ProfileRecordResolved<L>>)
    ensures
        (all.filter(is_verification_record::<L>()) + all.filter(is_plain_record::<L>())).to_multiset() == all.to_multiset(),
        all.filter(is_verification_record::<L>()).len() + all.filter(is_plain_record::<L>()).len() == all.len(),
    decreases all.len(),
{
    reveal(Seq::filter);
    let v = all.filter(is_verification_record::<L>());
    let p = all.filter(is_plain_record::<L>());
    lemma_multiset_commutative(v, p);
    if all.len() > 0 {
        let d = all.drop_last();
        let x = all.last();
        lemma_split_is_partition(d);
        let dv = d.filter(is_verification_record::<L>());
        let dp = d.filter(is_plain_record::<L>());
        lemma_multiset_commutative(dv, dp);
        assert(all =~= d.push(x));
        to_multiset_build(d, x);
        if x.record.is_verification {
            assert(v =~= dv.push(x));
            assert(p =~= dp);
            to_multiset_build(dv, x);
        } else {
            assert(v =~= dv);
            assert(p =~= dp.push(x));
            to_multiset_build(dp, x);
        }
    } else {
        assert(v =~= Seq::<ProfileRecordResolved<L>>::empty());
        assert(p =~= Seq::<ProfileRecordResolved<L>>::empty());
    }
}

/// The levels a player made, as `sort_created_levels` lists them, are in
/// position order, levels without a position first, and are exactly the levels
/// they are credited for together with those they published without any creator.
pub proof fn lemma_created_levels<L>(created: Seq<PositionedLevel<L>>, published_only: Seq<PositionedLevel<L>>)
    ensures
        sorted_by_position(sort_by_position(created + published_only)),
        sort_by_position(created + published_only).to_multiset() == created.to_multiset().add(published_only.to_multiset()),
{
    lemma_sort_by_position(created + published_only);
    lemma_multiset_commutative(created, published_only);
}

/// Positions order with missing positions first, then ascending.
pub open spec fn position_after(a: Option<i32>, b: Option<i32>) -> bool {
    match (a, b) {
        (Some(x), Some(y)) => x > y,
        (Some(_), None) => true,
        (None, _) => false,
    }
}

/// Every level comes no later in position order than the ones after it.
pub open spec fn sorted_by_position<L>(s: Seq<PositionedLevel<L>>) -> bool {
    forall|i: int, j: int| 0 <= i < j < s.len() ==> !position_after(#[trigger] s[i].position, #[trigger] s[j].position)
}

/// `j` is where `x` goes in a sorted `s` so that it follows every level at or before its position.
pub open spec fn is_insert_point<L>(s: Seq<PositionedLevel<L>>, x: PositionedLevel<L>, j: int) -> bool {
    &&& 0 <= j <= s.len()
    &&& forall|k: int| 0 <= k < j ==> !position_after(#[trigger] s[k].position, x.position)
    &&& (j == s.len() || position_after(s[j].position, x.position))
}

pub open spec fn insert_point<L>(s: Seq<PositionedLevel<L>>, x: PositionedLevel<L>) -> int {
    choose|j: int| is_insert_point(s, x, j)
}

/// Sorting by position, stable: each level goes after the earlier levels at or before its position.
pub open spec fn sort_by_position<L>(s: Seq<PositionedLevel<L>>) -> Seq<PositionedLevel<L>>
    decreases s.len(),
{
    if s.len() == 0 {
        s
    } else {
        let t = sort_by_position(s.drop_last());
        t.insert(insert_point(t, s.last()), s.last())
    }
}

proof fn lemma_insert_point_unique<L>(s: Seq<PositionedLevel<L>>, x: PositionedLevel<L>, j1: int, j2: int)
    requires
        is_insert_point(s, x, j1),
        is_insert_point(s, x, j2),
    ensures
        j1 == j2,
{
    if j1 < j2 {
        assert(!position_after(s[j1].position, x.position));
    }
    if j2 < j1 {
        assert(!position_after(s[j2].position, x.position));
    }
}

/// In a sorted sequence, the first level after `x`'s position is its insertion point.
proof fn lemma_insert_point_exists<L>(s: Seq<PositionedLevel<L>>, x: PositionedLevel<L>, i: int) -> (j: int)
    requires
        0 <= i <= s.len(),
        forall|k: int| 0 <= k < i ==> !position_after(#[trigger] s[k].position, x.position),
    ensures
        is_insert_point(s, x, j),
    decreases s.len() - i,
{
    if i == s.len() || position_after(s[i].position, x.position) {
        i
    } else {
        lemma_insert_point_exists(s, x, i + 1)
    }
}

fn position_after_exec(a: Option<i32>, b: Option<i32>) -> (r: bool)
    ensures
        r == position_after(a, b),
{
    match (a, b) {
        (Some(x), Some(y)) => x > y,
        (Some(_), None) => true,
        (None, _) => false,
    }
}

/// The levels a player made: those they are credited as creator of, then the
/// ones they published without any creator credited, all put in position order,
/// levels without a position first; levels at the same position keep the order
/// they came in.
pub fn sort_created_levels<L>(created: Vec<PositionedLevel<L>>, published_only: Vec<PositionedLevel<L>>) -> (r: Vec<PositionedLevel<L>>)
    ensures
        r@ == sort_by_position(created@ + published_only@),
{
    let mut levels = created;
    let mut rest = published_only;
    levels.append(&mut rest);
    let ghost s = levels@;
    let mut out: Vec<PositionedLevel<L>> = Vec::new();
    proof {
        assert(s.take(0) =~= Seq::<PositionedLevel<L>>::empty());
    }
    for x in it: levels
        invariant
            it.seq() == s,
            out@ == sort_by_position(s.take(it.index() as int)),
    {
        let ghost i = it.index() as int;
        let n = out.len();
        let mut j: usize = 0;
        while j < n && !position_after_exec(out[j].position, x.position)
            invariant
                n == out@.len(),
                j <= n,
                forall|k: int| 0 <= k < j ==> !position_after(#[trigger] out@[k].position, x.position),
            decreases n - j,
        {
            j = j + 1;
        }
        proof {
            assert(is_insert_point(out@, x, j as int));
            lemma_insert_point_unique(out@, x, j as int, insert_point(out@, x));
            assert(s.take(i + 1).drop_last() =~= s.take(i));
            assert(s.take(i + 1).last() == x);
        }
        out.insert(j, x);
    }
    proof {
        assert(s.take(s.len() as int) =~= s);
    }
    out
}


/// Sorting created levels by position yields them in position order, as the same
/// levels (a permutation of the input).
pub proof fn lemma_sort_by_position<L>(s: Seq<PositionedLevel<L>>)
    ensures
        sorted_by_position(sort_by_position(s)),
        sort_by_position(s).to_multiset() == s.to_multiset(),
        sort_by_position(s).len() == s.len(),
    decreases s.len(),
{
    if s.len() > 0 {
        let d = s.drop_last();
        let x = s.last();
        let t = sort_by_position(d);
        lemma_sort_by_position(d);
        let j = lemma_insert_point_exists(t, x, 0);
        lemma_insert_point_unique(t, x, j, insert_point(t, x));
        let r = t.insert(j, x);
        assert(r == sort_by_position(s));
        assert forall|a: int, b: int| 0 <= a < b < r.len() implies !position_after(#[trigger] r[a].position, #[trigger] r[b].position) by {
            if b < j {
                assert(r[a] == t[a] && r[b] == t[b]);
            } else if b == j {
                assert(r[a] == t[a]);
            } else if a > j {
                assert(r[a] == t[a - 1] && r[b] == t[b - 1]);
            } else if a == j {
                assert(r[b] == t[b - 1]);
                assert(position_after(t[j].position, x.position));
                assert(j == b - 1 || !position_after(t[j].position, t[b - 1].position));
            } else {
                assert(r[a] == t[a] && r[b] == t[b - 1]);
            }
        }
        to_multiset_insert(t, j, x);
        assert(s =~= d.push(x));
        to_multiset_build(d, x);
    }
}

/// In the created-level list, levels without a position come first, then the
/// others by ascending position.
pub proof fn lemma_created_levels_order<L>(created: Seq<PositionedLevel<L>>, published_only: Seq<PositionedLevel<L>>)
    ensures
        ({
            let r = sort_by_position(created + published_only);
            forall|i: int, j: int| 0 <= i < j < r.len() ==> (#[trigger] r[i]).position is None
                || ((#[trigger] r[j]).position is Some && r[i].position->0 <= r[j].position->0)
        }),
{
    let r = sort_by_position(created + published_only);
    lemma_sort_by_position(created + published_only);
    assert forall|i: int, j: int| 0 <= i < j < r.len() implies (#[trigger] r[i]).position is None
        || ((#[trigger] r[j]).position is Some && r[i].position->0 <= r[j].position->0) by {
        assert(!position_after(r[i].position, r[j].position));
    }
}

/// A record is a verification or another record, according to its flag.
pub proof fn lemma_split_by_flag<L>(all: Seq<ProfileRecordResolved<L>>)
    ensures
        forall|i: int| 0 <= i < all.filter(is_verification_record::<L>()).len()
            ==> (#[trigger] all.filter(is_verification_record::<L>())[i]).record.is_verification,
        forall|i: int| 0 <= i < all.filter(is_plain_record::<L>()).len()
            ==> !(#[trigger] all.filter(is_plain_record::<L>())[i]).record.is_verification,
{
    all.lemma_filter_len(is_verification_record::<L>());
    assert forall|i: int| 0 <= i < all.filter(is_verification_record::<L>()).len()
        implies (#[trigger] all.filter(is_verification_record::<L>())[i]).record.is_verification by {
        all.lemma_filter_pred(is_verification_record::<L>(), i);
    }
    assert forall|i: int| 0 <= i < all.filter(is_plain_record::<L>()).len()
        implies !(#[trigger] all.filter(is_plain_record::<L>())[i]).record.is_verification by {
        all.lemma_filter_pred(is_plain_record::<L>(), i);
    }
}

/// Levels at the position `p`.
pub open spec fn at_position<L>(p: Option<i32>) -> spec_fn(PositionedLevel<L>) -> bool {
    |y: PositionedLevel<L>| y.position == p
}

/// Sorting by position is stable: the levels at any one position (or without a
/// position) come out in the order they came in.
pub proof fn lemma_sort_is_stable<L>(s: Seq<PositionedLevel<L>>, p: Option<i32>)
    ensures
        sort_by_position(s).filter(at_position::<L>(p)) == s.filter(at_position::<L>(p)),
    decreases s.len(),
{
    let q = at_position::<L>(p);
    if s.len() == 0 {
        reveal(Seq::filter);
    } else {
        let d = s.drop_last();
        let x = s.last();
        let t = sort_by_position(d);
        lemma_sort_is_stable(d, p);
        lemma_sort_by_position(d);
        let j = lemma_insert_point_exists(t, x, 0);
        lemma_insert_point_unique(t, x, j, insert_point(t, x));
        let r = t.insert(j, x);
        assert(r == sort_by_position(s));
        let a = t.take(j);
        let b = t.skip(j);
        assert(r =~= a.push(x) + b);
        assert(t =~= a + b);
        assert(s =~= d.push(x));
        Seq::filter_distributes_over_add(a.push(x), b, q);
        Seq::filter_distributes_over_add(a, b, q);
        a.lemma_filter_push(x, q);
        d.lemma_filter_push(x, q);
        if q(x) {
            // every level after the insertion point comes strictly after `x`
            b.filter_lemma(q);
            if b.filter(q).len() > 0 {
                let y = b.filter(q)[0];
                assert(q(y));
                assert(b.filter(q).contains(y));
                b.lemma_filter_contains_rev(q, y);
                let k = choose|k: int| 0 <= k < b.len() && b[k] == y;
                assert(b[k] == t[j + k]);
                assert(position_after(t[j].position, x.position));
                if k > 0 {
                    assert(sorted_by_position(t));
                    assert(!position_after(t[j].position, t[j + k].position));
                }
                assert(false);
            }
            assert(b.filter(q) =~= Seq::<PositionedLevel<L>>::empty());
        }
    }
}

} // verus!
