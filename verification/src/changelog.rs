use vstd::prelude::*;
use crate::levels::model::{BaseLevel, LevelStatus};

verus! {

/// One row of the position history: a level's position and status before and
/// after a change. `created_at` is in microseconds since the UNIX epoch.
#[derive(Debug, Clone)]
pub struct ChangelogEntryData {
    pub new_position: Option<i32>,
    pub old_position: Option<i32>,
    pub old_status: Option<LevelStatus>,
    pub new_status: LevelStatus,
    pub created_at: i64,
}

/// What a position-history row means for the list.
#[derive(Debug, Clone)]
#[allow(inconsistent_fields)]
pub enum ChangelogAction {
    /// A new level was added to the list but does not have an actual placement yet.
    Pending,
    /// A new level was placed on the list.
    Placed { new_position: i32, status: LevelStatus },
    /// An existing level was raised from one position to another.
    Raised { new_position: i32, old_position: i32 },
    /// An existing level was lowered from one position to another.
    Lowered { new_position: i32, old_position: i32 },
    /// An existing level was removed from the list.
    Removed { old_position: Option<i32> },
    /// An existing level was swapped with another level.
    Swapped { upper_position: i32, upper_level: BaseLevel, other_level: BaseLevel },
    /// An existing level was moved to the legacy list.
    MovedToLegacy { new_position: i32, old_position: i32 },
    /// An existing level was moved from the legacy list.
    MovedFromLegacy { new_position: i32, old_position: i32 },
    /// A change that matches none of the above.
    Unknown {
        new_position: Option<i32>,
        old_position: Option<i32>,
        old_status: Option<LevelStatus>,
        new_status: LevelStatus,
    },
}

pub open spec fn abs_diff(a: i32, b: i32) -> int {
    if a >= b {
        a - b
    } else {
        b - a
    }
}

/// A move within one list by `new` and `old` positions; a move by one place is a
/// swap with the neighbour that took the old place, when that neighbour is known.
pub open spec fn spec_move_action(
    new_position: i32,
    old_position: i32,
    status: LevelStatus,
    level: BaseLevel,
    level_above: Option<BaseLevel>,
    level_below: Option<BaseLevel>,
) -> ChangelogAction {
    let raised = new_position < old_position;
    let distance = abs_diff(new_position, old_position);
    if raised && distance == 1 && level_below is Some {
        ChangelogAction::Swapped {
            upper_position: new_position,
            upper_level: level,
            other_level: level_below->0,
        }
    } else if !raised && distance == 1 && level_above is Some {
        ChangelogAction::Swapped {
            upper_position: old_position,
            upper_level: level_above->0,
            other_level: level,
        }
    } else if distance <= 1 {
        ChangelogAction::Unknown {
            new_position: Some(new_position),
            old_position: Some(old_position),
            old_status: Some(status),
            new_status: status,
        }
    } else if raised {
        ChangelogAction::Raised { new_position, old_position }
    } else {
        ChangelogAction::Lowered { new_position, old_position }
    }
}

pub open spec fn spec_changelog_action(
    entry: ChangelogEntryData,
    level: BaseLevel,
    level_above: Option<BaseLevel>,
    level_below: Option<BaseLevel>,
) -> ChangelogAction {
    let old_status = entry.old_status;
    let new_status = entry.new_status;
    let new_position = entry.new_position;
    let old_position = entry.old_position;
    if new_status == LevelStatus::Pending && new_position is None {
        ChangelogAction::Pending
    } else if new_status == LevelStatus::Removed {
        ChangelogAction::Removed { old_position }
    } else if (new_status == LevelStatus::MainList || new_status == LevelStatus::Legacy)
        && new_position is Some && old_position is None {
        ChangelogAction::Placed { new_position: new_position->0, status: new_status }
    } else if old_status == Some(new_status) && new_position is Some && old_position is Some {
        spec_move_action(
            new_position->0,
            old_position->0,
            new_status,
            level,
            level_above,
            level_below,
        )
    } else if old_status == Some(LevelStatus::MainList) && new_status == LevelStatus::Legacy
        && new_position is Some && old_position is Some {
        ChangelogAction::MovedToLegacy {
            new_position: new_position->0,
            old_position: old_position->0,
        }
    } else if old_status == Some(LevelStatus::Legacy) && new_status == LevelStatus::MainList
        && new_position is Some && old_position is Some {
        ChangelogAction::MovedFromLegacy {
            new_position: new_position->0,
            old_position: old_position->0,
        }
    } else {
        ChangelogAction::Unknown { new_position, old_position, old_status, new_status }
    }
}

/// A row whose move within one list can be measured: the difference between its
/// new and old positions, and the size of that difference, fit in an `i32`.
/// Rows that are no move within one list always can.
pub open spec fn move_is_measurable(entry: ChangelogEntryData) -> bool {
    (entry.new_status != LevelStatus::Removed && entry.old_status == Some(entry.new_status)
        && entry.new_position is Some && entry.old_position is Some) ==> {
        let d = entry.new_position->0 - entry.old_position->0;
        i32::MIN < d && d <= i32::MAX
    }
}

fn copy_level(level: Option<&BaseLevel>) -> (r: Option<BaseLevel>)
    ensures
        r == copy_level_spec(level),
{
    match level {
        Some(l) => Some(l.duplicate()),
        None => None,
    }
}

impl ChangelogAction {
    /// Classifies a position-history row. `level` is the affected level and
    /// `level_above` / `level_below` its neighbours after the change.
    pub fn from_data(
        entry: &ChangelogEntryData,
        level: &BaseLevel,
        level_above: Option<&BaseLevel>,
        level_below: Option<&BaseLevel>,
    ) -> (r: Self)
        requires
            move_is_measurable(*entry),
        ensures
            r == spec_changelog_action(*entry, *level, copy_level_spec(level_above), copy_level_spec(level_below)),
    {
        let old_status = entry.old_status;
        let new_status = entry.new_status;
        let new_position = entry.new_position;
        let old_position = entry.old_position;
        if new_status == LevelStatus::Pending && new_position.is_none() {
            return ChangelogAction::Pending;
        }
        if new_status == LevelStatus::Removed {
            return ChangelogAction::Removed { old_position };
        }
        if (new_status == LevelStatus::MainList || new_status == LevelStatus::Legacy)
            && new_position.is_some() && old_position.is_none() {
            return ChangelogAction::Placed { new_position: new_position.unwrap(), status: new_status };
        }
        match (old_status, new_position, old_position) {
            (Some(os), Some(n), Some(o)) => {
                if os == new_status {
                    let raised = n < o;
                    let diff: i32 = n - o;
                    let distance: i32 = if diff < 0 { -diff } else { diff };
                    if raised && distance == 1 && level_below.is_some() {
                        return ChangelogAction::Swapped {
                            upper_position: n,
                            upper_level: level.duplicate(),
                            other_level: copy_level(level_below).unwrap(),
                        };
                    }
                    if !raised && distance == 1 && level_above.is_some() {
                        return ChangelogAction::Swapped {
                            upper_position: o,
                            upper_level: copy_level(level_above).unwrap(),
                            other_level: level.duplicate(),
                        };
                    }
                    if distance <= 1 {
                        return ChangelogAction::Unknown {
                            new_position: Some(n),
                            old_position: Some(o),
                            old_status: Some(os),
                            new_status: new_status,
                        };
                    }
                    if raised {
                        return ChangelogAction::Raised { new_position: n, old_position: o };
                    }
                    return ChangelogAction::Lowered { new_position: n, old_position: o };
                }
                if os == LevelStatus::MainList && new_status == LevelStatus::Legacy {
                    return ChangelogAction::MovedToLegacy { new_position: n, old_position: o };
                }
                if os == LevelStatus::Legacy && new_status == LevelStatus::MainList {
                    return ChangelogAction::MovedFromLegacy { new_position: n, old_position: o };
                }
            },
            _ => {},
        }
        ChangelogAction::Unknown { new_position, old_position, old_status, new_status }
    }
}

pub open spec fn copy_level_spec(level: Option<&BaseLevel>) -> Option<BaseLevel> {
    match level {
        Some(l) => Some(*l),
        None => None,
    }
}

/// A changelog entry as the changelog lists it: when the change happened, the
/// level it affected and that level's neighbours after it, and what it means.
#[derive(Debug, Clone)]
pub struct ChangelogEntry {
    pub created_at: i64,
    pub affected_level: BaseLevel,
    pub level_above: Option<BaseLevel>,
    pub level_below: Option<BaseLevel>,
    pub action: ChangelogAction,
}

impl ChangelogEntry {
    /// Classifies every position-history row of a changelog page, keeping their order.
    pub fn resolve_all(rows: Vec<(ChangelogEntryData, BaseLevel, Option<BaseLevel>, Option<BaseLevel>)>) -> (r: Vec<ChangelogEntry>)
        requires
            forall|i: int| 0 <= i < rows@.len() ==> move_is_measurable(#[trigger] rows@[i].0),
        ensures
            r@.len() == rows@.len(),
            forall|i: int| 0 <= i < rows@.len() ==> {
                let row = #[trigger] rows@[i];
                &&& r@[i].created_at == row.0.created_at
                &&& r@[i].affected_level == row.1
                &&& r@[i].level_above == row.2
                &&& r@[i].level_below == row.3
                &&& r@[i].action == spec_changelog_action(row.0, row.1, row.2, row.3)
            },
    {
        let mut out: Vec<ChangelogEntry> = Vec::new();
        let ghost all = rows@;
        for row in it: rows
            invariant
                it.seq() == all,
                forall|i: int| 0 <= i < all.len() ==> move_is_measurable(#[trigger] all[i].0),
                out@.len() == it.index(),
                forall|i: int| 0 <= i < it.index() ==> {
                    let row = #[trigger] all[i];
                    &&& out@[i].created_at == row.0.created_at
                    &&& out@[i].affected_level == row.1
                    &&& out@[i].level_above == row.2
                    &&& out@[i].level_below == row.3
                    &&& out@[i].action == spec_changelog_action(row.0, row.1, row.2, row.3)
                },
        {
            let (entry, affected, above, below) = row;
            let above_ref = above.as_ref();
            let below_ref = below.as_ref();
            let action = ChangelogAction::from_data(&entry, &affected, above_ref, below_ref);
            proof {
                assert(copy_level_spec(above_ref) == above);
                assert(copy_level_spec(below_ref) == below);
            }
            out.push(ChangelogEntry {
                created_at: entry.created_at,
                affected_level: affected,
                level_above: above,
                level_below: below,
                action,
            });
        }
        out
    }
}

/// What each kind of changelog entry tells about the row it came from:
/// a pending entry is exactly a pending level without a position; a removal is
/// exactly a row whose new status is removed; a placement has no old position;
/// raises and lowers stay within one list and move by more than one place, up
/// or down; a swap stays within one list and moves by exactly one place, its
/// upper position being the higher of the two, its upper level the one now on
/// top and its other level the one now below (the moved level is one of them,
/// its neighbour the other); moves to and from the legacy
/// list change exactly between the main and the legacy list.
pub proof fn lemma_changelog_action_kinds(
    entry: ChangelogEntryData,
    level: BaseLevel,
    level_above: Option<BaseLevel>,
    level_below: Option<BaseLevel>,
)
    ensures
        ({
            let a = spec_changelog_action(entry, level, level_above, level_below);
            &&& (a is Pending) <==> (entry.new_status == LevelStatus::Pending && entry.new_position is None)
            &&& (a is Removed) <==> entry.new_status == LevelStatus::Removed
            &&& a matches ChangelogAction::Removed { old_position } ==> old_position == entry.old_position
            &&& a matches ChangelogAction::Placed { new_position, status } ==> {
                &&& entry.new_position == Some(new_position)
                &&& entry.old_position is None
                &&& status == entry.new_status
            }
            &&& a matches ChangelogAction::Raised { new_position, old_position } ==> {
                &&& entry.new_position == Some(new_position)
                &&& entry.old_position == Some(old_position)
                &&& entry.old_status == Some(entry.new_status)
                &&& new_position < old_position - 1
            }
            &&& a matches ChangelogAction::Lowered { new_position, old_position } ==> {
                &&& entry.new_position == Some(new_position)
                &&& entry.old_position == Some(old_position)
                &&& entry.old_status == Some(entry.new_status)
                &&& new_position > old_position + 1
            }
            &&& a matches ChangelogAction::Swapped { upper_position, upper_level, other_level } ==> {
                &&& (entry.new_position->0 < entry.old_position->0 ==> upper_level == level && level_below == Some(other_level))
                &&& (entry.new_position->0 > entry.old_position->0 ==> other_level == level && level_above == Some(upper_level))
                &&& entry.new_position is Some && entry.old_position is Some
                &&& entry.old_status == Some(entry.new_status)
                &&& abs_diff(entry.new_position->0, entry.old_position->0) == 1
                &&& upper_position == (if entry.new_position->0 < entry.old_position->0 {
                    entry.new_position->0
                } else {
                    entry.old_position->0
                })
            }
            &&& a matches ChangelogAction::MovedToLegacy { new_position, old_position } ==> {
                &&& entry.old_status == Some(LevelStatus::MainList)
                &&& entry.new_status == LevelStatus::Legacy
                &&& entry.new_position == Some(new_position)
                &&& entry.old_position == Some(old_position)
            }
            &&& a matches ChangelogAction::MovedFromLegacy { new_position, old_position } ==> {
                &&& entry.old_status == Some(LevelStatus::Legacy)
                &&& entry.new_status == LevelStatus::MainList
                &&& entry.new_position == Some(new_position)
                &&& entry.old_position == Some(old_position)
            }
        }),
{
}

/// Which kind a row gets: a pending level without position is pending; a row
/// whose new status is removed is a removal; a placement on the main or legacy
/// list of a level without old position is a placement; a move within one list
/// by more than one place is a raise (up) or a lower (down), by one place a swap
/// when the neighbour that took the old place is known and unknown otherwise,
/// and by none unknown; a move from the main list to the legacy list, or back,
/// is a move to or from legacy.
pub proof fn lemma_changelog_classification(
    entry: ChangelogEntryData,
    level: BaseLevel,
    level_above: Option<BaseLevel>,
    level_below: Option<BaseLevel>,
)
    ensures
        ({
            let a = spec_changelog_action(entry, level, level_above, level_below);
            let within = entry.new_status != LevelStatus::Removed && entry.old_status == Some(entry.new_status)
                && entry.new_position is Some && entry.old_position is Some;
            let n = entry.new_position->0 as int;
            let o = entry.old_position->0 as int;
            &&& (entry.new_status == LevelStatus::Pending && entry.new_position is None) ==> a is Pending
            &&& entry.new_status == LevelStatus::Removed ==> a == ChangelogAction::Removed { old_position: entry.old_position }
            &&& ((entry.new_status == LevelStatus::MainList || entry.new_status == LevelStatus::Legacy)
                && entry.new_position is Some && entry.old_position is None)
                ==> a == ChangelogAction::Placed { new_position: entry.new_position->0, status: entry.new_status }
            &&& within && n < o - 1 ==> a == ChangelogAction::Raised { new_position: entry.new_position->0, old_position: entry.old_position->0 }
            &&& within && n > o + 1 ==> a == ChangelogAction::Lowered { new_position: entry.new_position->0, old_position: entry.old_position->0 }
            &&& within && n == o - 1 && level_below is Some ==> a == ChangelogAction::Swapped {
                upper_position: entry.new_position->0,
                upper_level: level,
                other_level: level_below->0,
            }
            &&& within && n == o + 1 && level_above is Some ==> a == ChangelogAction::Swapped {
                upper_position: entry.old_position->0,
                upper_level: level_above->0,
                other_level: level,
            }
            &&& within && (n == o || (n == o - 1 && level_below is None) || (n == o + 1 && level_above is None)) ==> a == ChangelogAction::Unknown {
                new_position: entry.new_position,
                old_position: entry.old_position,
                old_status: entry.old_status,
                new_status: entry.new_status,
            }
            &&& (entry.old_status == Some(LevelStatus::MainList) && entry.new_status == LevelStatus::Legacy
                && entry.new_position is Some && entry.old_position is Some)
                ==> a == ChangelogAction::MovedToLegacy { new_position: entry.new_position->0, old_position: entry.old_position->0 }
            &&& (entry.old_status == Some(LevelStatus::Legacy) && entry.new_status == LevelStatus::MainList
                && entry.new_position is Some && entry.old_position is Some)
                ==> a == ChangelogAction::MovedFromLegacy { new_position: entry.new_position->0, old_position: entry.old_position->0 }
        }),
{
}

} // verus!
