use screeps_game_api::constants::small_enums::Direction;
use screeps_game_api::game::describe_exits;
use screeps_game_api::text::parse_u32;

#[test]
fn decimal_numbers_are_read_as_the_standard_library_reads_them() {
    let texts = [
        "", "+", "-", "0", "7", "+7", "-7", "007", "+007", "++7", "7+", " 7", "7 ", "1_000",
        "4294967295", "4294967296", "+4294967295", "04294967295", "42949672950", "99999999999",
        "18446744073709551616", "12a", "a12", "1.0", "0x10", "\u{0661}", "1\u{0661}", "+0", "00",
    ];
    for text in texts {
        assert_eq!(parse_u32(text), text.parse::<u32>().ok(), "{:?}", text);
    }
    assert_eq!(parse_u32("4294967295"), Some(u32::MAX));
    assert_eq!(parse_u32("4294967296"), None);
    assert_eq!(parse_u32("+12"), Some(12));
    assert_eq!(parse_u32("0012"), Some(12));
    assert_eq!(parse_u32(""), None);
    assert_eq!(parse_u32("+"), None);
    for n in (0..=u32::MAX).step_by(65_521) {
        assert_eq!(parse_u32(&n.to_string()), Some(n));
    }
}

fn named(pairs: &[(&str, &str)]) -> Vec<(String, String)> {
    pairs.iter().map(|(k, v)| (String::from(*k), String::from(*v))).collect()
}

#[test]
fn exits_are_told_by_the_number_of_their_direction() {
    assert_eq!(
        describe_exits(named(&[("1", "W1N2"), ("3", "W0N1"), ("5", "W1N0"), ("7", "W2N1")])),
        Some(vec![
            (Direction::Top, String::from("W1N2")),
            (Direction::Right, String::from("W0N1")),
            (Direction::Bottom, String::from("W1N0")),
            (Direction::Left, String::from("W2N1")),
        ])
    );
    assert_eq!(describe_exits(vec![]), Some(vec![]));
    assert_eq!(
        describe_exits(named(&[("8", "a"), ("+2", "b"), ("04", "c")])),
        Some(vec![
            (Direction::TopLeft, String::from("a")),
            (Direction::TopRight, String::from("b")),
            (Direction::BottomRight, String::from("c")),
        ])
    );
    assert_eq!(describe_exits(named(&[("1", "a"), ("0", "b")])), None);
    assert_eq!(describe_exits(named(&[("9", "a")])), None);
    assert_eq!(describe_exits(named(&[("top", "a")])), None);
    assert_eq!(describe_exits(named(&[("", "a")])), None);
    assert_eq!(describe_exits(named(&[("1", "a"), ("-1", "b")])), None);
    assert_eq!(describe_exits(named(&[("4294967297", "a")])), None);
}
