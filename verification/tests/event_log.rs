use screeps_game_api::constants::small_enums::{AttackType, HealType};
use screeps_game_api::objects::event_log::{
    find_detail, read_payload, scan_fields, Detail, Details, EventError, EventKind, RawData,
    RawEvent, RawField, RawValue,
};
use screeps_game_api::objects::room::{
    AttackEvent, BuildEvent, Event, EventType, ExitEvent, HarvestEvent, HealEvent,
    ObjectDestroyedEvent, RepairEvent, ReserveControllerEvent, UpgradeControllerEvent,
};

fn text(name: &str, value: &str) -> RawField {
    RawField { name: String::from(name), value: RawValue::Text(String::from(value)) }
}

fn number(name: &str, value: u64) -> RawField {
    RawField { name: String::from(name), value: RawValue::Number(value) }
}

fn other(name: &str) -> RawField {
    RawField { name: String::from(name), value: RawValue::Other }
}

fn entry(event: i64, fields: Vec<RawField>) -> RawEvent {
    RawEvent {
        event: Some(event),
        object_id: Some(String::from("5bbcac4c9099fc012e635b3a")),
        data: Some(RawData::Fields(fields)),
    }
}

fn event(event: EventType) -> Result<Event, EventError> {
    Ok(Event { event, object_id: String::from("5bbcac4c9099fc012e635b3a") })
}

#[test]
fn reads_each_kind_of_event() {
    assert_eq!(
        Event::from_raw(&entry(
            1,
            vec![text("targetId", "t"), number("damage", 30), number("attackType", 2)]
        )),
        event(EventType::Attack(AttackEvent {
            target_id: String::from("t"),
            damage: 30,
            attack_type: AttackType::Ranged,
        }))
    );
    assert_eq!(
        Event::from_raw(&entry(2, vec![text("type", "creep")])),
        event(EventType::ObjectDestroyed(ObjectDestroyedEvent {
            object_type: String::from("creep")
        }))
    );
    assert_eq!(Event::from_raw(&entry(3, vec![])), event(EventType::AttackController));
    assert_eq!(
        Event::from_raw(&entry(
            4,
            vec![number("energySpent", 5), number("amount", 7), text("targetId", "site")]
        )),
        event(EventType::Build(BuildEvent {
            target_id: String::from("site"),
            amount: 7,
            energy_spent: 5,
        }))
    );
    assert_eq!(
        Event::from_raw(&entry(5, vec![text("targetId", "src"), number("amount", 2)])),
        event(EventType::Harvest(HarvestEvent { target_id: String::from("src"), amount: 2 }))
    );
    assert_eq!(
        Event::from_raw(&entry(
            6,
            vec![text("targetId", "c"), number("amount", 12), number("healType", 1)]
        )),
        event(EventType::Heal(HealEvent {
            target_id: String::from("c"),
            amount: 12,
            heal_type: HealType::Melee,
        }))
    );
    assert_eq!(
        Event::from_raw(&entry(
            7,
            vec![text("targetId", "w"), number("amount", 100), number("energySpent", 1)]
        )),
        event(EventType::Repair(RepairEvent {
            target_id: String::from("w"),
            amount: 100,
            energy_spent: 1,
        }))
    );
    assert_eq!(
        Event::from_raw(&entry(8, vec![number("amount", 1)])),
        event(EventType::ReserveController(ReserveControllerEvent { amount: 1 }))
    );
    assert_eq!(
        Event::from_raw(&entry(9, vec![number("amount", 15), number("energySpent", 15)])),
        event(EventType::UpgradeController(UpgradeControllerEvent {
            amount: 15,
            energy_spent: 15,
        }))
    );
    assert_eq!(
        Event::from_raw(&entry(10, vec![text("room", "W2N1"), number("x", 49), number("y", 0)])),
        event(EventType::Exit(ExitEvent { room: String::from("W2N1"), x: 49, y: 0 }))
    );
}

#[test]
fn passes_over_names_that_are_no_detail_of_the_event() {
    assert_eq!(
        Event::from_raw(&entry(
            5,
            vec![
                other("note"),
                number("damage", 4),
                text("targetId", "src"),
                text("room", "W1N1"),
                number("amount", 2),
                other("TargetId"),
            ]
        )),
        event(EventType::Harvest(HarvestEvent { target_id: String::from("src"), amount: 2 }))
    );
}

#[test]
fn an_entry_needs_number_details_and_object() {
    let mut raw = entry(8, vec![number("amount", 1)]);
    raw.event = None;
    assert_eq!(Event::from_raw(&raw), Err(EventError::MissingData));
    let mut raw = entry(8, vec![number("amount", 1)]);
    raw.data = None;
    assert_eq!(Event::from_raw(&raw), Err(EventError::MissingData));
    let mut raw = entry(99, vec![]);
    raw.data = None;
    assert_eq!(Event::from_raw(&raw), Err(EventError::MissingData));
    let mut raw = entry(8, vec![number("amount", 1)]);
    raw.object_id = None;
    assert_eq!(Event::from_raw(&raw), Err(EventError::MissingObjectId));
    let mut raw = entry(8, vec![]);
    raw.object_id = None;
    assert_eq!(Event::from_raw(&raw), Err(EventError::Missing(Detail::Amount)));
    let mut raw = entry(8, vec![]);
    raw.data = Some(RawData::Other);
    assert_eq!(Event::from_raw(&raw), Err(EventError::InvalidData));
    let mut raw = entry(3, vec![]);
    raw.data = Some(RawData::Other);
    assert_eq!(Event::from_raw(&raw), event(EventType::AttackController));
}

#[test]
fn unknown_event_numbers_are_refused() {
    assert_eq!(Event::from_raw(&entry(0, vec![])), Err(EventError::UnknownEvent { event: 0 }));
    assert_eq!(Event::from_raw(&entry(11, vec![])), Err(EventError::UnknownEvent { event: 11 }));
    assert_eq!(Event::from_raw(&entry(-1, vec![])), Err(EventError::UnknownEvent { event: -1 }));
    assert_eq!(
        Event::from_raw(&entry(i64::MAX, vec![])),
        Err(EventError::UnknownEvent { event: i64::MAX })
    );
    for code in 1..=10 {
        assert_eq!(EventKind::from_code(code).unwrap().code(), code);
    }
    assert_eq!(EventKind::from_code(0), None);
    assert_eq!(EventKind::from_code(11), None);
}

#[test]
fn details_are_checked_in_the_order_of_the_log_and_missing_ones_last() {
    assert_eq!(
        Event::from_raw(&entry(1, vec![number("damage", 1), number("damage", 2)])),
        Err(EventError::Repeated(Detail::Damage))
    );
    assert_eq!(
        Event::from_raw(&entry(1, vec![number("damage", 1), text("damage", "x")])),
        Err(EventError::Repeated(Detail::Damage))
    );
    assert_eq!(
        Event::from_raw(&entry(1, vec![text("damage", "x"), number("damage", 2)])),
        Err(EventError::Invalid(Detail::Damage))
    );
    assert_eq!(
        Event::from_raw(&entry(1, vec![number("targetId", 1), number("damage", 2)])),
        Err(EventError::Invalid(Detail::TargetId))
    );
    assert_eq!(
        Event::from_raw(&entry(1, vec![number("damage", 2)])),
        Err(EventError::Missing(Detail::TargetId))
    );
    assert_eq!(
        Event::from_raw(&entry(1, vec![text("targetId", "t")])),
        Err(EventError::Missing(Detail::Damage))
    );
    assert_eq!(
        Event::from_raw(&entry(1, vec![text("targetId", "t"), number("damage", 2)])),
        Err(EventError::Missing(Detail::AttackType))
    );
    assert_eq!(
        Event::from_raw(&entry(10, vec![number("y", 2), number("x", 1)])),
        Err(EventError::Missing(Detail::Room))
    );
    assert_eq!(
        Event::from_raw(&entry(10, vec![text("room", "r"), number("y", 2)])),
        Err(EventError::Missing(Detail::X))
    );
    assert_eq!(
        Event::from_raw(&entry(10, vec![text("room", "r"), number("x", 2)])),
        Err(EventError::Missing(Detail::Y))
    );
}

#[test]
fn values_must_suit_their_detail() {
    let attack = |kind: RawValue| {
        entry(
            1,
            vec![
                text("targetId", "t"),
                number("damage", 1),
                RawField { name: String::from("attackType"), value: kind },
            ],
        )
    };
    for (code, kind) in [
        (1, AttackType::Melee),
        (2, AttackType::Ranged),
        (3, AttackType::RangedMass),
        (4, AttackType::Dismantle),
        (5, AttackType::HitBack),
        (6, AttackType::Nuke),
    ] {
        assert_eq!(
            Event::from_raw(&attack(RawValue::Number(code))),
            event(EventType::Attack(AttackEvent {
                target_id: String::from("t"),
                damage: 1,
                attack_type: kind,
            }))
        );
    }
    for bad in [0, 7, 1 << 32, (1 << 32) + 1, u64::MAX] {
        assert_eq!(
            Event::from_raw(&attack(RawValue::Number(bad))),
            Err(EventError::Invalid(Detail::AttackType))
        );
    }
    assert_eq!(
        Event::from_raw(&attack(RawValue::Text(String::from("1")))),
        Err(EventError::Invalid(Detail::AttackType))
    );
    assert_eq!(
        Event::from_raw(&attack(RawValue::Other)),
        Err(EventError::Invalid(Detail::AttackType))
    );
    let heal = |code: u64| {
        entry(6, vec![text("targetId", "t"), number("amount", 1), number("healType", code)])
    };
    assert!(Event::from_raw(&heal(2)).is_ok());
    assert_eq!(Event::from_raw(&heal(0)), Err(EventError::Invalid(Detail::HealType)));
    assert_eq!(Event::from_raw(&heal(3)), Err(EventError::Invalid(Detail::HealType)));
    assert_eq!(
        Event::from_raw(&heal((1 << 32) + 1)),
        Err(EventError::Invalid(Detail::HealType))
    );

    assert_eq!(
        Event::from_raw(&entry(8, vec![number("amount", u32::MAX as u64)])),
        event(EventType::ReserveController(ReserveControllerEvent { amount: u32::MAX }))
    );
    assert_eq!(
        Event::from_raw(&entry(8, vec![number("amount", u32::MAX as u64 + 1)])),
        Err(EventError::Invalid(Detail::Amount))
    );
    assert_eq!(
        Event::from_raw(&entry(8, vec![other("amount")])),
        Err(EventError::Invalid(Detail::Amount))
    );
    assert_eq!(
        Event::from_raw(&entry(2, vec![number("type", 1)])),
        Err(EventError::Invalid(Detail::ObjectType))
    );
}

#[test]
fn detail_names_are_those_of_the_log() {
    let all = [
        (Detail::TargetId, "targetId"),
        (Detail::Damage, "damage"),
        (Detail::AttackType, "attackType"),
        (Detail::ObjectType, "type"),
        (Detail::Amount, "amount"),
        (Detail::EnergySpent, "energySpent"),
        (Detail::HealType, "healType"),
        (Detail::Room, "room"),
        (Detail::X, "x"),
        (Detail::Y, "y"),
    ];
    for (detail, name) in all {
        assert_eq!(detail.name(), name);
        assert_eq!(Detail::from_name(name), Some(detail));
    }
    assert_eq!(Detail::from_name("target_id"), None);
    assert_eq!(Detail::from_name(""), None);
    assert_eq!(find_detail(EventKind::Attack, "damage"), Some(Detail::Damage));
    assert_eq!(find_detail(EventKind::Harvest, "damage"), None);
    assert_eq!(find_detail(EventKind::AttackController, "amount"), None);
    assert_eq!(find_detail(EventKind::Exit, "x"), Some(Detail::X));
    assert!(EventKind::Repair.has_detail(Detail::EnergySpent));
    assert!(!EventKind::Harvest.has_detail(Detail::EnergySpent));
    let per_kind: Vec<usize> = (1..=10)
        .map(|code| {
            let kind = EventKind::from_code(code).unwrap();
            all.iter().filter(|(d, _)| kind.has_detail(*d)).count()
        })
        .collect();
    assert_eq!(per_kind, vec![3, 1, 0, 3, 2, 3, 3, 1, 2, 3]);
}

#[test]
fn scanning_fills_the_details_of_the_kind_only() {
    let fields = vec![number("amount", 3), text("room", "x"), number("energySpent", 4)];
    let read = scan_fields(EventKind::UpgradeController, &fields).unwrap();
    assert_eq!(read.amount, Some(3));
    assert_eq!(read.energy_spent, Some(4));
    assert_eq!(read.room, None);
    assert!(read.has(Detail::Amount));
    assert!(!read.has(Detail::Room));
    assert_eq!(scan_fields(EventKind::AttackController, &fields), Ok(Details::new()));
    assert_eq!(
        read_payload(EventKind::UpgradeController, &RawData::Fields(fields)),
        Ok(EventType::UpgradeController(UpgradeControllerEvent { amount: 3, energy_spent: 4 }))
    );
    assert_eq!(
        Details::new().take(Detail::X, &RawValue::Number(7)).unwrap().x,
        Some(7)
    );
    assert_eq!(Details::new().take(Detail::X, &RawValue::Other), None);
}
