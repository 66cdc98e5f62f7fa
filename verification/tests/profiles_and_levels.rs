use aredl_backend::leaderboard::{LeaderboardEntry, LeaderboardEntryResolved, LeaderboardOrder, LeaderboardQueryOptions, RankColumn};
use aredl_backend::levels::history::{HistoryEvent, HistoryLevelFull, HistoryLevelResponse};
use aredl_backend::levels::ldms::{LdmRejection, LevelLDM, LevelLDMBody, LevelLDMResolved, LevelLDMStatus, LevelLDMType, LevelLDMUpdate};
use aredl_backend::levels::model::BaseLevel;
use aredl_backend::levels::records::{LevelResolvedRecord, Record, RecordQuery};
use aredl_backend::profile::{
    check_profile_visible, sort_created_levels, PositionedLevel, ProfileRecord, ProfileRecordResolved, ProfileRejection, Rank,
};

fn pl(position: Option<i32>, name: &'static str) -> PositionedLevel<&'static str> {
    PositionedLevel { position, level: name }
}

#[test]
fn created_levels_sorted_stably() {
    let sorted = sort_created_levels(vec![pl(Some(3), "c"), pl(None, "n1"), pl(Some(1), "a")], vec![pl(Some(3), "c2"), pl(None, "n2")]);
    let names: Vec<&str> = sorted.iter().map(|l| l.level).collect();
    assert_eq!(names, vec!["n1", "n2", "a", "c", "c2"]);
    assert!(sort_created_levels(Vec::<PositionedLevel<&str>>::new(), Vec::new()).is_empty());
    let only_published: Vec<&str> = sort_created_levels(Vec::new(), vec![pl(Some(2), "b"), pl(Some(1), "a")]).iter().map(|l| l.level).collect();
    assert_eq!(only_published, vec!["a", "b"]);
}

#[test]
fn created_levels_sort_matches_std_stable_sort() {
    let created = vec![pl(Some(5), "e"), pl(Some(-1), "m"), pl(None, "x")];
    let published = vec![pl(Some(5), "e2"), pl(Some(2), "b"), pl(None, "y")];
    let mut expected = created.clone();
    expected.extend(published.clone());
    expected.sort_by_key(|l| l.position);
    let ours: Vec<&str> = sort_created_levels(created, published).iter().map(|l| l.level).collect();
    let theirs: Vec<&str> = expected.iter().map(|l| l.level).collect();
    assert_eq!(ours, theirs);
}

fn prec(id: u128, verification: bool) -> ProfileRecordResolved<u32> {
    ProfileRecordResolved {
        record: ProfileRecord {
            id,
            mobile: false,
            is_verification: verification,
            ldm_id: None,
            video_url: String::new(),
            completion_time: 0,
            created_at: 0,
        },
        level: id as u32,
    }
}

#[test]
fn verifications_split_in_order() {
    let (verified, records) = ProfileRecordResolved::split_verifications(vec![prec(1, false), prec(2, true), prec(3, false), prec(4, true)]);
    assert_eq!(verified.iter().map(|r| r.record.id).collect::<Vec<_>>(), vec![2, 4]);
    assert_eq!(records.iter().map(|r| r.record.id).collect::<Vec<_>>(), vec![1, 3]);
}

#[test]
fn banned_profile_hidden() {
    assert_eq!(check_profile_visible(false), Ok(()));
    let e = check_profile_visible(true).unwrap_err();
    assert_eq!(e, ProfileRejection::Banned);
    assert_eq!(e.status_code(), 403);
    assert_eq!(e.message(), "This user has been banned from the list.");
}

#[test]
fn rank_is_plain_data() {
    let r = Rank { rank: 1, raw_rank: 2, extremes_rank: 3, country_rank: 4, country_raw_rank: 5, country_extremes_rank: 6, total_points: 7, pack_points: 8, extremes: 9 };
    assert_eq!(r, r.clone());
}

fn opts(country: Option<i32>, order: Option<LeaderboardOrder>) -> LeaderboardQueryOptions {
    LeaderboardQueryOptions { name_filter: None, country_filter: country, clan_filter: None, order }
}

#[test]
fn leaderboard_rank_columns() {
    assert_eq!(opts(None, None).rank_column(), RankColumn::Rank);
    assert_eq!(opts(None, Some(LeaderboardOrder::ExtremeCount)).rank_column(), RankColumn::ExtremesRank);
    assert_eq!(opts(None, Some(LeaderboardOrder::RawPoints)).rank_column(), RankColumn::RawRank);
    assert_eq!(opts(Some(840), None).rank_column(), RankColumn::CountryRank);
    assert_eq!(opts(Some(840), Some(LeaderboardOrder::ExtremeCount)).rank_column(), RankColumn::CountryExtremesRank);
    assert_eq!(opts(Some(840), Some(LeaderboardOrder::RawPoints)).rank_column(), RankColumn::CountryRawRank);
}

fn lb(rank: i32, user_id: u128) -> LeaderboardEntry {
    LeaderboardEntry {
        rank,
        extremes_rank: rank + 1,
        raw_rank: rank + 2,
        country_rank: rank + 3,
        country_extremes_rank: rank + 4,
        country_raw_rank: rank + 5,
        user_id,
        country: Some(250),
        total_points: 1000,
        pack_points: 100,
        hardest: Some(5),
        extremes: 12,
        clan_id: None,
    }
}

#[test]
fn leaderboard_rows_resolved_in_order() {
    let rows = vec![(lb(1, 11), "alice", Some("clan"), Some("lvl")), (lb(2, 12), "bob", None, None)];
    let out = LeaderboardEntryResolved::resolve_all(rows);
    assert_eq!(out.len(), 2);
    assert_eq!(out[0].rank, 1);
    assert_eq!(out[0].extremes_rank, 2);
    assert_eq!(out[0].country_raw_rank, 6);
    assert_eq!(out[0].user, "alice");
    assert_eq!(out[0].clan, Some("clan"));
    assert_eq!(out[0].hardest, Some("lvl"));
    assert_eq!(out[1].user, "bob");
    assert_eq!(out[1].clan, None);
    assert_eq!(out[1].pack_points, 100);
}

fn hist(cause_id: u128, moved: bool, pos_diff: Option<i32>) -> HistoryLevelFull {
    HistoryLevelFull { position: Some(3), pos_diff, moved, legacy: false, action_at: 77, cause_id, cause_name: "cause".to_string() }
}

#[test]
fn history_events() {
    let me = 1;
    assert_eq!(HistoryEvent::from_history(&hist(me, false, None), me), HistoryEvent::Placed);
    assert_eq!(HistoryEvent::from_history(&hist(me, true, Some(-2)), me), HistoryEvent::MovedUp);
    assert_eq!(HistoryEvent::from_history(&hist(me, true, Some(2)), me), HistoryEvent::MovedDown);
    assert_eq!(HistoryEvent::from_history(&hist(2, true, Some(-1)), me), HistoryEvent::OtherMovedDown);
    assert_eq!(HistoryEvent::from_history(&hist(2, true, Some(1)), me), HistoryEvent::OtherMovedUp);
    assert_eq!(HistoryEvent::from_history(&hist(2, false, Some(-1)), me), HistoryEvent::OtherRemoved);
    assert_eq!(HistoryEvent::from_history(&hist(2, false, None), me), HistoryEvent::OtherRemoved);
    assert_eq!(HistoryEvent::from_history(&hist(2, false, Some(1)), me), HistoryEvent::OtherPlaced);
    let r = HistoryLevelResponse::from_data(&hist(2, false, Some(1)), me);
    assert_eq!(r.cause.id, 2);
    assert_eq!(r.cause.name, "cause");
    assert_eq!(r.position, Some(3));
    assert_eq!(r.action_at, 77);
}

#[test]
fn base_level_duplicate() {
    let l = BaseLevel { id: 4, name: "Sonic Wave".to_string() };
    let d = l.duplicate();
    assert_eq!((d.id, d.name.as_str()), (4, "Sonic Wave"));
}

fn ldm(id: u128, level_id: u128, id_type: LevelLDMType, status: LevelLDMStatus) -> LevelLDM {
    LevelLDM { id, level_id, ldm_id: 100 + id as i32, added_by: 6, id_type, status, description: Some("d".to_string()), created_at: 9 }
}

fn body(id_type: LevelLDMType, status: LevelLDMStatus) -> LevelLDMBody {
    LevelLDMBody { ldm_id: 123, id_type, status, description: Some("d".to_string()) }
}

#[test]
fn ldm_create_and_update() {
    let ins = LevelLDM::create(body(LevelLDMType::Ldm, LevelLDMStatus::Published), 5, 6, &Vec::new()).unwrap();
    assert_eq!((ins.level_id, ins.added_by, ins.ldm_id), (5, 6, 123));
    let entry = ldm(1, 5, LevelLDMType::Ldm, LevelLDMStatus::Published);
    let same = entry.clone().update(LevelLDMUpdate { ldm_id: None, id_type: None, status: None, description: None }, &vec![entry.clone()]).unwrap();
    assert_eq!(same.description.as_deref(), Some("d"));
    assert_eq!(same.ldm_id, 101);
    let changed = entry.clone().update(LevelLDMUpdate { ldm_id: Some(7), id_type: Some(LevelLDMType::Bugfix), status: Some(LevelLDMStatus::Banned), description: Some(None) }, &vec![entry.clone()]).unwrap();
    assert_eq!(changed.ldm_id, 7);
    assert_eq!(changed.id_type, LevelLDMType::Bugfix);
    assert_eq!(changed.status, LevelLDMStatus::Banned);
    assert_eq!(changed.description, None);
    assert_eq!(changed.created_at, 9);
    let resolved = LevelLDMResolved::from_data(entry, "moderator");
    assert_eq!(resolved.added_by, "moderator");
    assert_eq!(resolved.ldm_id, 101);
}

#[test]
fn one_published_ldm_per_type() {
    let existing = vec![
        ldm(1, 5, LevelLDMType::Ldm, LevelLDMStatus::Published),
        ldm(2, 5, LevelLDMType::Bugfix, LevelLDMStatus::Allowed),
        ldm(3, 7, LevelLDMType::Bugfix, LevelLDMStatus::Published),
    ];
    let e = LevelLDM::create(body(LevelLDMType::Ldm, LevelLDMStatus::Published), 5, 6, &existing).unwrap_err();
    assert_eq!(e, LdmRejection::PublishedExists);
    assert_eq!(e.status_code(), 409);
    assert!(LevelLDM::create(body(LevelLDMType::Ldm, LevelLDMStatus::Allowed), 5, 6, &existing).is_ok());
    assert!(LevelLDM::create(body(LevelLDMType::Bugfix, LevelLDMStatus::Published), 5, 6, &existing).is_ok());
    assert!(LevelLDM::create(body(LevelLDMType::Ldm, LevelLDMStatus::Published), 7, 6, &existing).is_ok());
    let publish = LevelLDMUpdate { ldm_id: None, id_type: None, status: Some(LevelLDMStatus::Published), description: None };
    // publishing the allowed bugfix id: the level has no published bugfix id yet
    assert!(existing[1].clone().update(publish.clone(), &existing).is_ok());
    // turning it into a second published LDM id of level 5 is refused
    let to_ldm = LevelLDMUpdate { ldm_id: None, id_type: Some(LevelLDMType::Ldm), status: Some(LevelLDMStatus::Published), description: None };
    assert_eq!(existing[1].clone().update(to_ldm, &existing).unwrap_err(), LdmRejection::PublishedExists);
    // the published entry itself may be edited and stay published
    assert!(existing[0].clone().update(publish, &existing).is_ok());
}

fn record(verification: bool) -> Record {
    Record { id: 1, level_id: 2, submitted_by: 3, mobile: false, is_verification: verification, video_url: "v".to_string(), completion_time: 10, hide_video: false, created_at: 1, updated_at: 2 }
}

#[test]
fn level_record_list_filters() {
    let all = RecordQuery { high_extremes: None, submitter_filter: None };
    assert!(all.shows(&record(false), 0, 0));
    assert!(all.shows(&record(false), 1, 0));
    assert!(!all.shows(&record(false), 2, 0));
    assert!(!all.shows(&record(true), 0, 100));
    let high = RecordQuery { high_extremes: Some(true), submitter_filter: None };
    assert!(!high.shows(&record(false), 0, 50));
    assert!(high.shows(&record(false), 0, 51));
    let not_high = RecordQuery { high_extremes: Some(false), submitter_filter: None };
    assert!(not_high.shows(&record(false), 0, 0));
    let r = LevelResolvedRecord::from_data(record(false), "player");
    assert_eq!(r.submitted_by, "player");
    assert_eq!(r.completion_time, 10);
}
