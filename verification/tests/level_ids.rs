use aredl_backend::levels::id_resolver::{level_reference, level_reference_from, parse_failure_message, parse_gd_id, IntErrorKind, LevelRef};

fn std_kind(s: &str) -> IntErrorKind {
    match s.parse::<i32>().unwrap_err().kind() {
        std::num::IntErrorKind::Empty => IntErrorKind::Empty,
        std::num::IntErrorKind::InvalidDigit => IntErrorKind::InvalidDigit,
        std::num::IntErrorKind::PosOverflow => IntErrorKind::PosOverflow,
        std::num::IntErrorKind::NegOverflow => IntErrorKind::NegOverflow,
        _ => panic!("unexpected error kind"),
    }
}

#[test]
fn plain_id_is_one_player() {
    assert_eq!(parse_gd_id("123"), Ok((123, false)));
    assert_eq!(parse_gd_id("0"), Ok((0, false)));
    assert_eq!(parse_gd_id("+42"), Ok((42, false)));
    assert_eq!(parse_gd_id("-5"), Ok((-5, false)));
}

#[test]
fn two_player_suffix_marks_two_player() {
    assert_eq!(parse_gd_id("123_2p"), Ok((123, true)));
    assert_eq!(parse_gd_id("-7_2p"), Ok((-7, true)));
    assert_eq!(parse_gd_id("_2p"), Err(IntErrorKind::Empty));
    assert_eq!(parse_gd_id("12a_2p"), Err(IntErrorKind::InvalidDigit));
}

#[test]
fn two_player_suffix_law_on_values() {
    for base in ["1", "99", "-3", "", "+", "x1", "2147483648", "00012"] {
        let alone = parse_gd_id(base);
        let with = parse_gd_id(&format!("{}_2p", base));
        match alone {
            Ok((id, false)) => assert_eq!(with, Ok((id, true))),
            Ok((_, true)) => panic!("no suffix was given"),
            Err(e) => assert_eq!(with, Err(e)),
        }
    }
}

#[test]
fn limits_of_i32() {
    assert_eq!(parse_gd_id("2147483647"), Ok((i32::MAX, false)));
    assert_eq!(parse_gd_id("-2147483648"), Ok((i32::MIN, false)));
    assert_eq!(parse_gd_id("2147483648"), Err(IntErrorKind::PosOverflow));
    assert_eq!(parse_gd_id("-2147483649"), Err(IntErrorKind::NegOverflow));
}

#[test]
fn errors_agree_with_std() {
    for s in ["", "+", "-", "12a", "a12", "99999999999x", "2147483648", "-2147483649", " 1", "1 ", "1_2"] {
        let ours = parse_gd_id(s).unwrap_err();
        assert_eq!(ours, std_kind(s), "input {:?}", s);
        let msg = s.parse::<i32>().unwrap_err().to_string();
        assert_eq!(ours.description(), msg.as_str());
    }
}

#[test]
fn successes_agree_with_std() {
    for s in ["1", "-1", "+1", "0042", "-0", "2147483647", "-2147483648"] {
        assert_eq!(parse_gd_id(s), Ok((s.parse::<i32>().unwrap(), false)));
    }
}

#[test]
fn uuid_names_the_level_directly() {
    let text = "67e55044-10b1-426f-9247-bb680e5fe0c8";
    let expected = 0x67e55044_10b1_426f_9247_bb680e5fe0c8u128;
    assert_eq!(level_reference(text), Ok(LevelRef::Internal(expected)));
    let simple = "67e5504410b1426f9247bb680e5fe0c8";
    assert_eq!(level_reference(simple), Ok(LevelRef::Internal(expected)));
}

#[test]
fn non_uuid_is_a_game_id() {
    assert_eq!(level_reference("1234_2p"), Ok(LevelRef::Game { level_id: 1234, two_player: true }));
    assert_eq!(level_reference("77"), Ok(LevelRef::Game { level_id: 77, two_player: false }));
    assert_eq!(level_reference("not-a-level"), Err(IntErrorKind::InvalidDigit));
    assert_eq!(level_reference(""), Err(IntErrorKind::Empty));
}

#[test]
fn parsed_uuid_takes_precedence() {
    assert_eq!(level_reference_from(Some(5), "123"), Ok(LevelRef::Internal(5)));
    assert_eq!(level_reference_from(None, "123"), Ok(LevelRef::Game { level_id: 123, two_player: false }));
}

#[test]
fn refused_id_message() {
    for s in ["abc", "", "99999999999"] {
        let kind = parse_gd_id(s).unwrap_err();
        let expected = format!("Failed to parse {}: {}", s, s.parse::<i32>().unwrap_err());
        assert_eq!(parse_failure_message(s, kind), expected);
    }
}

#[test]
fn every_printed_i32_reads_back() {
    for n in [0, 1, -1, 9, 10, -10, 42, 1234567, -7654321, i32::MAX, i32::MIN, i32::MAX - 1, i32::MIN + 1] {
        assert_eq!(parse_gd_id(&n.to_string()), Ok((n, false)));
        assert_eq!(parse_gd_id(&format!("{}_2p", n)), Ok((n, true)));
    }
    for s in ["_2p", "1_2p_2p", "2147483648", "abc"] {
        assert!(parse_gd_id(s).is_err());
    }
    assert_eq!(parse_failure_message("abc", parse_gd_id("abc").unwrap_err()), "Failed to parse abc: invalid digit found in string");
}
