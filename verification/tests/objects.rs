use screeps_game_api::constants::small_enums::{Color, Direction, Exit, ReturnCode, Terrain};
use screeps_game_api::constants::types::{ResourceType, StructureType};
use screeps_game_api::game::{get_heap_statistics, HeapStatistics};
use screeps_game_api::local::cost_matrix::{LocalCostMatrix, SparseCostMatrix};
use screeps_game_api::local::room_position::Position;
use screeps_game_api::objects::room::{
    Area, Look, LookResult, PositionedLookResult, Room, RoomCall, RoomRequest, Step,
};
use screeps_game_api::objects::structure_lab::StructureLab;
use screeps_game_api::text::str_eq;

fn room() -> Room {
    Room::new(String::from("W1N1"))
}

fn asks(call: RoomCall) -> RoomRequest {
    RoomRequest { room: String::from("W1N1"), call }
}

#[test]
fn position_takes_tiles_of_the_room_only() {
    assert!(Position::new(50, 0).is_none());
    assert!(Position::new(0, 50).is_none());
    assert!(Position::new(u32::MAX, 0).is_none());
    assert!(Position::new(256, 0).is_none());
    let p = Position::new(49, 7).unwrap();
    assert_eq!(p.x(), 49);
    assert_eq!(p.y(), 7);
    assert_eq!(p.coords(), (49, 7));
    assert_eq!(p.coords_signed(), (49, 7));
    assert_eq!(p.tile(), (49, 7));
}

#[test]
fn cost_matrix_by_position() {
    let p = Position::new(3, 4).unwrap();
    let mut m = LocalCostMatrix::new();
    assert_eq!(m[p], 0);
    m[p] = 9;
    assert_eq!(m[p], 9);
    assert_eq!(m.get(3, 4), Ok(9));
    assert_eq!(m.get_bits()[154], 9);

    let q = Position::new(0, 0).unwrap();
    let s = SparseCostMatrix::from(vec![(p, 1), (q, 0), (p, 2)]);
    let mut stored = s.iter();
    stored.sort();
    assert_eq!(stored, vec![((0, 0), 0), ((3, 4), 2)]);
}

#[test]
fn lab_mineral_by_name() {
    let lab = |name: &str| StructureLab {
        mineral_type: String::from(name),
        mineral_amount: 10,
        mineral_capacity: 3000,
    };
    assert_eq!(lab("H").mineral_type(), Some(ResourceType::Hydrogen));
    assert_eq!(lab("XGHO2").mineral_type(), Some(ResourceType::CatalyzedGhodiumAlkalide));
    assert_eq!(lab("energy").mineral_type(), Some(ResourceType::Energy));
    assert_eq!(lab("h").mineral_type(), None);
    assert_eq!(lab("").mineral_type(), None);
}

#[test]
fn heap_statistics_default_to_zero() {
    let zero = HeapStatistics::default();
    assert_eq!(zero.total_heap_size, 0);
    assert_eq!(zero.externally_allocated_size, 0);
    assert_eq!(get_heap_statistics(None), zero);
    let some = HeapStatistics { used_heap_size: 5, ..zero };
    assert_eq!(get_heap_statistics(Some(some)), some);
}

#[test]
fn strings_compare_by_content() {
    assert!(str_eq("", ""));
    assert!(str_eq("abc", "abc"));
    assert!(!str_eq("abc", "abd"));
    assert!(!str_eq("abc", "ab"));
    assert!(!str_eq("ab", "abc"));
    assert!(str_eq("\u{e9}t\u{e9}", "\u{e9}t\u{e9}"));
    assert!(!str_eq("\u{e9}", "e"));
}

#[test]
fn room_requests_carry_the_room_and_the_arguments() {
    let r = room();
    assert_eq!(r.name(), "W1N1");
    let at = Position::new(10, 20).unwrap();
    assert_eq!(
        r.create_construction_site(at, StructureType::Tower),
        asks(RoomCall::CreateConstructionSite { x: 10, y: 20, structure_type: 10, name: None })
    );
    assert_eq!(
        r.create_named_construction_site(at, StructureType::Spawn, "Home"),
        asks(RoomCall::CreateConstructionSite {
            x: 10,
            y: 20,
            structure_type: 0,
            name: Some(String::from("Home")),
        })
    );
    assert_eq!(
        r.create_flag(at, "F", Color::Red, Color::White),
        asks(RoomCall::CreateFlag {
            x: 10,
            y: 20,
            name: String::from("F"),
            main_color: 1,
            secondary_color: 10,
        })
    );
    assert_eq!(r.find(101), asks(RoomCall::Find { find_code: 101 }));
    assert_eq!(
        r.find_exit_to(&Room::new(String::from("W2N1"))),
        asks(RoomCall::FindExitTo { room: String::from("W2N1") })
    );
    assert_eq!(r.get_event_log_raw(), asks(RoomCall::GetEventLog { raw: true }));
    assert_eq!(r.get_position_at(1, 2), asks(RoomCall::GetPositionAt { x: 1, y: 2 }));
    assert_eq!(r.get_terrain(), asks(RoomCall::GetTerrain));
    assert_eq!(r.look_at(&at), asks(RoomCall::LookAt { x: 10, y: 20 }));
    assert_eq!(r.look_at_xy(3, 4), asks(RoomCall::LookAt { x: 3, y: 4 }));
    assert_eq!(
        r.look_at_area(1, 2, 3, 4),
        asks(RoomCall::LookAtArea {
            area: Area { top: 1, left: 2, bottom: 3, right: 4 },
            as_array: true,
        })
    );
    assert_eq!(
        r.look_for_at(Look::Creep, at),
        asks(RoomCall::LookForAt { look: Look::Creep, x: 10, y: 20 })
    );
    assert_eq!(
        r.look_for_at_xy(Look::Terrain, 5, 6),
        asks(RoomCall::LookForAt { look: Look::Terrain, x: 5, y: 6 })
    );
    assert_eq!(
        r.look_for_at_area(Look::Energy, 20..26, 30..50),
        asks(RoomCall::LookForAtArea {
            look: Look::Energy,
            area: Area { top: 30, left: 20, bottom: 50, right: 26 },
            as_array: true,
        })
    );
    assert_eq!(
        r.deserialize_path("0102"),
        asks(RoomCall::DeserializePath { path: String::from("0102") })
    );
    let step = Step { x: 1, y: 2, dx: 1, dy: -1, direction: Direction::TopRight };
    assert_eq!(
        r.serialize_path(&[step, step]),
        asks(RoomCall::SerializePath { path: vec![step, step] })
    );
    assert_eq!(r.serialize_path(&[]), asks(RoomCall::SerializePath { path: vec![] }));
}

#[test]
fn exit_answers_are_sides_or_reasons() {
    assert_eq!(Room::read_exit(1), Some(Ok(Exit::Top)));
    assert_eq!(Room::read_exit(3), Some(Ok(Exit::Right)));
    assert_eq!(Room::read_exit(5), Some(Ok(Exit::Bottom)));
    assert_eq!(Room::read_exit(7), Some(Ok(Exit::Left)));
    assert_eq!(Room::read_exit(-2), Some(Err(ReturnCode::NoPath)));
    assert_eq!(Room::read_exit(-10), Some(Err(ReturnCode::InvalidArgs)));
    assert_eq!(Room::read_exit(0), None);
    assert_eq!(Room::read_exit(2), None);
    assert_eq!(Room::read_exit(-13), None);
    assert_eq!(Room::read_exit(i32::MIN), None);
    assert_eq!(Room::read_exit(i32::MAX), None);
}

#[test]
fn look_names_are_those_of_the_host() {
    let all = [
        (Look::Creep, "creep"),
        (Look::Energy, "energy"),
        (Look::Resource, "resource"),
        (Look::Source, "source"),
        (Look::Mineral, "mineral"),
        (Look::Structure, "structure"),
        (Look::Flag, "flag"),
        (Look::ConstructionSite, "constructionSite"),
        (Look::Nuke, "nuke"),
        (Look::Terrain, "terrain"),
        (Look::Tombstone, "tombstone"),
    ];
    for (look, name) in all {
        assert_eq!(look.name(), name);
        assert_eq!(Look::from_name(name), Some(look));
    }
    assert_eq!(Look::from_name("creeps"), None);
    assert_eq!(Look::from_name("Creep"), None);
    assert_eq!(Look::from_name(""), None);
}

#[test]
fn look_results_are_filed_by_kind() {
    assert_eq!(LookResult::of_object(Look::Creep, 7), Some(LookResult::Creep(7)));
    assert_eq!(LookResult::of_object(Look::Energy, 7), Some(LookResult::Energy(7)));
    assert_eq!(LookResult::of_object(Look::Resource, 7), Some(LookResult::Resource(7)));
    assert_eq!(LookResult::of_object(Look::Source, 7), Some(LookResult::Source(7)));
    assert_eq!(LookResult::of_object(Look::Mineral, 7), Some(LookResult::Mineral(7)));
    assert_eq!(LookResult::of_object(Look::Structure, 7), Some(LookResult::Structure(7)));
    assert_eq!(LookResult::of_object(Look::Flag, 7), Some(LookResult::Flag(7)));
    assert_eq!(
        LookResult::of_object(Look::ConstructionSite, 7),
        Some(LookResult::ConstructionSite(7))
    );
    assert_eq!(LookResult::of_object(Look::Nuke, 7), Some(LookResult::Nuke(7)));
    assert_eq!(LookResult::of_object(Look::Tombstone, 7), Some(LookResult::Tombstone(7)));
    assert_eq!(LookResult::of_object(Look::Terrain, 7), None);
    let ground: LookResult<u8> = LookResult::of_terrain(Terrain::Swamp);
    assert_eq!(ground, LookResult::Terrain(Terrain::Swamp));
    assert_eq!(ground.look(), Look::Terrain);
    assert_eq!(LookResult::Nuke(1u8).look(), Look::Nuke);
    let placed = PositionedLookResult { x: 1, y: 2, look_result: ground };
    assert_eq!(placed.look_result.look(), Look::Terrain);
}

#[test]
fn rooms_are_the_same_by_name() {
    assert!(Room::new(String::from("W1N1")) == Room::new(String::from("W1N1")));
    assert!(Room::new(String::from("W1N1")) != Room::new(String::from("W1N2")));
    assert!(Room::new(String::from("")) == Room::new(String::from("")));
}
