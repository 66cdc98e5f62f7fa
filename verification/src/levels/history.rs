use vstd::prelude::*;
use crate::levels::model::BaseLevel;

verus! {

/// What a position-history entry means for one level.
#[derive(Debug, Clone, Copy, PartialEq, Eq, Structural)]
pub enum HistoryEvent {
    Placed,
    MovedUp,
    MovedDown,
    OtherPlaced,
    OtherRemoved,
    OtherMovedUp,
    OtherMovedDown,
}

/// A position-history entry of a level, joined with the level that caused it.
/// `action_at` is in microseconds since the UNIX epoch.
#[derive(Debug, Clone)]
pub struct HistoryLevelFull {
    pub position: Option<i32>,
    pub pos_diff: Option<i32>,
    pub moved: bool,
    pub legacy: bool,
    pub action_at: i64,
    pub cause_id: u128,
    pub cause_name: String,
}

/// One entry of a level's history as the API reports it.
#[derive(Debug, Clone)]
pub struct HistoryLevelResponse {
    pub position: Option<i32>,
    pub position_diff: Option<i32>,
    pub event: HistoryEvent,
    pub legacy: bool,
    pub action_at: i64,
    pub cause: BaseLevel,
}

/// The position difference orders below zero: a missing difference counts as below too.
pub open spec fn diff_below_zero(pos_diff: Option<i32>) -> bool {
    match pos_diff {
        None => true,
        Some(d) => d < 0,
    }
}

pub open spec fn spec_history_event(cause_id: u128, moved: bool, pos_diff: Option<i32>, level_id: u128) -> HistoryEvent {
    let own = level_id == cause_id;
    let below = diff_below_zero(pos_diff);
    if own {
        if moved {
            if below { HistoryEvent::MovedUp } else { HistoryEvent::MovedDown }
        } else {
            HistoryEvent::Placed
        }
    } else if moved {
        if below { HistoryEvent::OtherMovedDown } else { HistoryEvent::OtherMovedUp }
    } else if below {
        HistoryEvent::OtherRemoved
    } else {
        HistoryEvent::OtherPlaced
    }
}

impl HistoryEvent {
    /// Classifies a history entry from the point of view of the level `level_id`.
    pub fn from_history(data: &HistoryLevelFull, level_id: u128) -> (r: Self)
        ensures
            r == spec_history_event(data.cause_id, data.moved, data.pos_diff, level_id),
    {
        let below = match data.pos_diff {
            None => true,
            Some(d) => d < 0,
        };
        if level_id == data.cause_id {
            if data.moved {
                if below { HistoryEvent::MovedUp } else { HistoryEvent::MovedDown }
            } else {
                HistoryEvent::Placed
            }
        } else if data.moved {
            if below { HistoryEvent::OtherMovedDown } else { HistoryEvent::OtherMovedUp }
        } else if below {
            HistoryEvent::OtherRemoved
        } else {
            HistoryEvent::OtherPlaced
        }
    }
}

impl HistoryLevelResponse {
    /// The API form of a history entry of the level `level_id`.
    pub fn from_data(data: &HistoryLevelFull, level_id: u128) -> (r: Self)
        ensures
            r.position == data.position,
            r.position_diff == data.pos_diff,
            r.event == spec_history_event(data.cause_id, data.moved, data.pos_diff, level_id),
            r.legacy == data.legacy,
            r.action_at == data.action_at,
            r.cause.id == data.cause_id,
            r.cause.name@ == data.cause_name@,
    {
        HistoryLevelResponse {
            position: data.position,
            position_diff: data.pos_diff,
            event: HistoryEvent::from_history(data, level_id),
            legacy: data.legacy,
            action_at: data.action_at,
            cause: BaseLevel { id: data.cause_id, name: data.cause_name.clone() },
        }
    }
}

/// From the point of view of a level, an entry it caused itself is a placement
/// when it did not move, and otherwise a move up when the position difference is
/// negative or unknown and down otherwise; an entry another level caused moved it
/// down when the difference is negative or unknown and up otherwise, and when
/// nothing moved is another level's removal (negative or unknown) or placement.
pub proof fn lemma_history_events(cause_id: u128, moved: bool, pos_diff: Option<i32>, level_id: u128)
    ensures
        ({
            let e = spec_history_event(cause_id, moved, pos_diff, level_id);
            let up = match pos_diff { Some(d) => d < 0, None => true };
            &&& level_id == cause_id && !moved ==> e == HistoryEvent::Placed
            &&& level_id == cause_id && moved && up ==> e == HistoryEvent::MovedUp
            &&& level_id == cause_id && moved && !up ==> e == HistoryEvent::MovedDown
            &&& level_id != cause_id && moved && up ==> e == HistoryEvent::OtherMovedDown
            &&& level_id != cause_id && moved && !up ==> e == HistoryEvent::OtherMovedUp
            &&& level_id != cause_id && !moved && up ==> e == HistoryEvent::OtherRemoved
            &&& level_id != cause_id && !moved && !up ==> e == HistoryEvent::OtherPlaced
        }),
{
}

} // verus!
