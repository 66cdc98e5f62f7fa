use aredl_backend::changelog::{ChangelogAction, ChangelogEntry, ChangelogEntryData};
use aredl_backend::levels::model::{BaseLevel, LevelStatus};

fn entry(new_position: Option<i32>, old_position: Option<i32>, old_status: Option<LevelStatus>, new_status: LevelStatus) -> ChangelogEntryData {
    ChangelogEntryData { new_position, old_position, old_status, new_status, created_at: 0 }
}

fn level(id: u128, name: &str) -> BaseLevel {
    BaseLevel { id, name: name.to_string() }
}

fn kind(a: &ChangelogAction) -> &'static str {
    match a {
        ChangelogAction::Pending => "Pending",
        ChangelogAction::Placed { .. } => "Placed",
        ChangelogAction::Raised { .. } => "Raised",
        ChangelogAction::Lowered { .. } => "Lowered",
        ChangelogAction::Removed { .. } => "Removed",
        ChangelogAction::Swapped { .. } => "Swapped",
        ChangelogAction::MovedToLegacy { .. } => "MovedToLegacy",
        ChangelogAction::MovedFromLegacy { .. } => "MovedFromLegacy",
        ChangelogAction::Unknown { .. } => "Unknown",
    }
}

#[test]
fn pending_level_without_position() {
    let a = ChangelogAction::from_data(&entry(None, None, None, LevelStatus::Pending), &level(1, "a"), None, None);
    assert_eq!(kind(&a), "Pending");
}

#[test]
fn placed_on_main_list() {
    let a = ChangelogAction::from_data(&entry(Some(4), None, None, LevelStatus::MainList), &level(1, "a"), None, None);
    match a {
        ChangelogAction::Placed { new_position, status } => {
            assert_eq!(new_position, 4);
            assert_eq!(status, LevelStatus::MainList);
        }
        other => panic!("unexpected {:?}", other),
    }
}

#[test]
fn raised_and_lowered() {
    let e = entry(Some(1), Some(3), Some(LevelStatus::MainList), LevelStatus::MainList);
    match ChangelogAction::from_data(&e, &level(1, "a"), None, None) {
        ChangelogAction::Raised { new_position, old_position } => assert_eq!((new_position, old_position), (1, 3)),
        other => panic!("unexpected {:?}", other),
    }
    let e = entry(Some(3), Some(1), Some(LevelStatus::MainList), LevelStatus::MainList);
    match ChangelogAction::from_data(&e, &level(1, "a"), None, None) {
        ChangelogAction::Lowered { new_position, old_position } => assert_eq!((new_position, old_position), (3, 1)),
        other => panic!("unexpected {:?}", other),
    }
}

#[test]
fn swapped_when_raised_by_one() {
    let e = entry(Some(2), Some(3), Some(LevelStatus::MainList), LevelStatus::MainList);
    match ChangelogAction::from_data(&e, &level(1, "moved"), Some(&level(2, "above")), Some(&level(3, "below"))) {
        ChangelogAction::Swapped { upper_position, upper_level, other_level } => {
            assert_eq!(upper_position, 2);
            assert_eq!(upper_level.id, 1);
            assert_eq!(upper_level.name, "moved");
            assert_eq!(other_level.id, 3);
        }
        other => panic!("unexpected {:?}", other),
    }
}

#[test]
fn swapped_when_lowered_by_one() {
    let e = entry(Some(3), Some(2), Some(LevelStatus::MainList), LevelStatus::MainList);
    match ChangelogAction::from_data(&e, &level(1, "moved"), Some(&level(2, "above")), Some(&level(3, "below"))) {
        ChangelogAction::Swapped { upper_position, upper_level, other_level } => {
            assert_eq!(upper_position, 2);
            assert_eq!(upper_level.id, 2);
            assert_eq!(upper_level.name, "above");
            assert_eq!(other_level.id, 1);
            assert_eq!(other_level.name, "moved");
        }
        other => panic!("unexpected {:?}", other),
    }
}

#[test]
fn move_by_one_without_neighbour_is_unknown() {
    let e = entry(Some(2), Some(3), Some(LevelStatus::MainList), LevelStatus::MainList);
    let a = ChangelogAction::from_data(&e, &level(1, "a"), Some(&level(2, "above")), None);
    assert_eq!(kind(&a), "Unknown");
    let e = entry(Some(5), Some(5), Some(LevelStatus::MainList), LevelStatus::MainList);
    match ChangelogAction::from_data(&e, &level(1, "a"), None, None) {
        ChangelogAction::Unknown { new_position, old_position, old_status, new_status } => {
            assert_eq!(new_position, Some(5));
            assert_eq!(old_position, Some(5));
            assert_eq!(old_status, Some(LevelStatus::MainList));
            assert_eq!(new_status, LevelStatus::MainList);
        }
        other => panic!("unexpected {:?}", other),
    }
}

#[test]
fn legacy_moves() {
    let e = entry(Some(3), Some(3), Some(LevelStatus::MainList), LevelStatus::Legacy);
    assert_eq!(kind(&ChangelogAction::from_data(&e, &level(1, "a"), None, None)), "MovedToLegacy");
    let e = entry(Some(3), Some(3), Some(LevelStatus::Legacy), LevelStatus::MainList);
    assert_eq!(kind(&ChangelogAction::from_data(&e, &level(1, "a"), None, None)), "MovedFromLegacy");
}

#[test]
fn removed_keeps_old_position() {
    let e = entry(None, Some(3), Some(LevelStatus::MainList), LevelStatus::Removed);
    match ChangelogAction::from_data(&e, &level(1, "a"), None, None) {
        ChangelogAction::Removed { old_position } => assert_eq!(old_position, Some(3)),
        other => panic!("unexpected {:?}", other),
    }
}

#[test]
fn every_kind_is_reachable() {
    let l = level(1, "a");
    let cases = [
        (entry(None, None, None, LevelStatus::Pending), "Pending"),
        (entry(Some(1), None, None, LevelStatus::Legacy), "Placed"),
        (entry(Some(1), Some(9), Some(LevelStatus::Legacy), LevelStatus::Legacy), "Raised"),
        (entry(Some(9), Some(1), Some(LevelStatus::Legacy), LevelStatus::Legacy), "Lowered"),
        (entry(Some(1), None, Some(LevelStatus::Pending), LevelStatus::Removed), "Removed"),
        (entry(Some(1), Some(2), Some(LevelStatus::Pending), LevelStatus::MainList), "Unknown"),
    ];
    for (e, expected) in cases.iter() {
        assert_eq!(kind(&ChangelogAction::from_data(e, &l, None, None)), *expected);
    }
}

#[test]
fn changelog_page_keeps_rows_in_order() {
    let rows = vec![
        (
            ChangelogEntryData { new_position: Some(2), old_position: Some(3), old_status: Some(LevelStatus::MainList), new_status: LevelStatus::MainList, created_at: 50 },
            level(1, "moved"),
            Some(level(2, "above")),
            Some(level(3, "below")),
        ),
        (entry(None, None, None, LevelStatus::Pending), level(4, "new"), None, None),
    ];
    let page = ChangelogEntry::resolve_all(rows);
    assert_eq!(page.len(), 2);
    assert_eq!(page[0].created_at, 50);
    assert_eq!(page[0].affected_level.id, 1);
    assert_eq!(page[0].level_above.as_ref().map(|l| l.id), Some(2));
    assert_eq!(page[0].level_below.as_ref().map(|l| l.id), Some(3));
    assert_eq!(kind(&page[0].action), "Swapped");
    assert_eq!(kind(&page[1].action), "Pending");
    assert!(page[1].level_above.is_none());
}

#[test]
fn far_moves_within_i32() {
    let e = entry(Some(-1_000_000_000), Some(1_000_000_000), Some(LevelStatus::MainList), LevelStatus::MainList);
    assert_eq!(kind(&ChangelogAction::from_data(&e, &level(1, "a"), None, None)), "Raised");
    let e = entry(Some(i32::MAX), Some(0), Some(LevelStatus::Legacy), LevelStatus::Legacy);
    assert_eq!(kind(&ChangelogAction::from_data(&e, &level(1, "a"), None, None)), "Lowered");
    // a change of list is no move within one list, whatever the positions
    let e = entry(Some(i32::MAX), Some(i32::MIN), Some(LevelStatus::MainList), LevelStatus::Legacy);
    assert_eq!(kind(&ChangelogAction::from_data(&e, &level(1, "a"), None, None)), "MovedToLegacy");
}
