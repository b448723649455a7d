use screeps_game_api::constants::small_enums::{
    AttackType, Color, Direction, Exit, HealType, ReturnCode, Terrain,
};
use screeps_game_api::constants::types::{
    EffectType, IntershardResourceType, NaturalEffectType, PowerCreepClass, PowerType,
    ResourceType, StructureType,
};

#[test]
fn construction_cost_of_each_structure() {
    assert_eq!(StructureType::Spawn.construction_cost(), Some(15_000));
    assert_eq!(StructureType::Extension.construction_cost(), Some(3_000));
    assert_eq!(StructureType::Road.construction_cost(), Some(300));
    assert_eq!(StructureType::Wall.construction_cost(), Some(1));
    assert_eq!(StructureType::Rampart.construction_cost(), Some(1));
    assert_eq!(StructureType::Link.construction_cost(), Some(5_000));
    assert_eq!(StructureType::Storage.construction_cost(), Some(30_000));
    assert_eq!(StructureType::Tower.construction_cost(), Some(5_000));
    assert_eq!(StructureType::Observer.construction_cost(), Some(8_000));
    assert_eq!(StructureType::PowerSpawn.construction_cost(), Some(100_000));
    assert_eq!(StructureType::Extractor.construction_cost(), Some(5_000));
    assert_eq!(StructureType::Lab.construction_cost(), Some(50_000));
    assert_eq!(StructureType::Terminal.construction_cost(), Some(100_000));
    assert_eq!(StructureType::Container.construction_cost(), Some(5_000));
    assert_eq!(StructureType::Nuker.construction_cost(), Some(100_000));
    assert_eq!(StructureType::Factory.construction_cost(), Some(100_000));
    assert_eq!(StructureType::KeeperLair.construction_cost(), None);
    assert_eq!(StructureType::PowerBank.construction_cost(), None);
    assert_eq!(StructureType::Portal.construction_cost(), None);
    assert_eq!(StructureType::Controller.construction_cost(), None);
    assert_eq!(StructureType::InvaderCore.construction_cost(), None);
}

#[test]
fn initial_hits_of_each_structure() {
    assert_eq!(StructureType::Spawn.initial_hits(), Some(5_000));
    assert_eq!(StructureType::Extension.initial_hits(), Some(1_000));
    assert_eq!(StructureType::Road.initial_hits(), Some(5_000));
    assert_eq!(StructureType::Wall.initial_hits(), Some(1));
    assert_eq!(StructureType::Rampart.initial_hits(), Some(1));
    assert_eq!(StructureType::Link.initial_hits(), Some(1_000));
    assert_eq!(StructureType::Storage.initial_hits(), Some(10_000));
    assert_eq!(StructureType::Tower.initial_hits(), Some(3_000));
    assert_eq!(StructureType::Observer.initial_hits(), Some(500));
    assert_eq!(StructureType::PowerBank.initial_hits(), Some(2_000_000));
    assert_eq!(StructureType::PowerSpawn.initial_hits(), Some(5_000));
    assert_eq!(StructureType::Extractor.initial_hits(), Some(1_000));
    assert_eq!(StructureType::Lab.initial_hits(), Some(500));
    assert_eq!(StructureType::Terminal.initial_hits(), Some(3_000));
    assert_eq!(StructureType::Container.initial_hits(), Some(250_000));
    assert_eq!(StructureType::Nuker.initial_hits(), Some(1_000));
    assert_eq!(StructureType::Factory.initial_hits(), Some(1_000));
    assert_eq!(StructureType::InvaderCore.initial_hits(), Some(100_000));
    assert_eq!(StructureType::KeeperLair.initial_hits(), None);
    assert_eq!(StructureType::Portal.initial_hits(), None);
    assert_eq!(StructureType::Controller.initial_hits(), None);
}

#[test]
fn structure_codes_run_from_0_to_20() {
    assert_eq!(StructureType::Spawn.code(), 0);
    assert_eq!(StructureType::Wall.code(), 3);
    assert_eq!(StructureType::Factory.code(), 19);
    assert_eq!(StructureType::InvaderCore.code(), 20);
    for code in 0..=20u8 {
        let ty = StructureType::from_code(code).unwrap();
        assert_eq!(ty.code(), code);
    }
    for code in 21..=255u8 {
        assert_eq!(StructureType::from_code(code), None);
    }
}

#[test]
fn structure_names_are_camel_case() {
    assert_eq!(StructureType::Spawn.name(), "spawn");
    assert_eq!(StructureType::KeeperLair.name(), "keeperLair");
    assert_eq!(StructureType::PowerBank.name(), "powerBank");
    assert_eq!(StructureType::InvaderCore.name(), "invaderCore");
    assert_eq!(StructureType::from_name("powerSpawn"), Some(StructureType::PowerSpawn));
    assert_eq!(StructureType::from_name("PowerSpawn"), None);
    assert_eq!(StructureType::from_name(""), None);
    assert_eq!(StructureType::from_name("spawn "), None);
    for code in 0..=20u8 {
        let ty = StructureType::from_code(code).unwrap();
        assert_eq!(StructureType::from_name(ty.name()), Some(ty));
    }
}

#[test]
fn resource_codes_and_names_round_trip() {
    assert_eq!(ResourceType::Energy.code(), 1);
    assert_eq!(ResourceType::Ghodium.code(), 10);
    assert_eq!(ResourceType::Hydroxide.code(), 11);
    assert_eq!(ResourceType::Ops.code(), 44);
    assert_eq!(ResourceType::Essence.code(), 84);
    assert_eq!(ResourceType::from_code(0), None);
    assert_eq!(ResourceType::from_code(85), None);
    assert_eq!(ResourceType::from_code(u16::MAX), None);
    for code in 1..=84u16 {
        let r = ResourceType::from_code(code).unwrap();
        assert_eq!(r.code(), code);
        assert_eq!(ResourceType::from_name(r.name()), Some(r));
    }
    assert_eq!(ResourceType::Energy.name(), "energy");
    assert_eq!(ResourceType::Catalyst.name(), "X");
    assert_eq!(ResourceType::CatalyzedGhodiumAlkalide.name(), "XGHO2");
    assert_eq!(ResourceType::UtriumBar.name(), "utrium_bar");
    assert_eq!(ResourceType::from_name("XUH2O"), Some(ResourceType::CatalyzedUtriumAcid));
    assert_eq!(ResourceType::from_name("XUHO2"), Some(ResourceType::CatalyzedUtriumAlkalide));
    assert_eq!(ResourceType::from_name("xuh2o"), None);
    assert_eq!(ResourceType::from_name("Energy"), None);
    assert_eq!(ResourceType::from_name(""), None);
}

#[test]
fn reaction_time_of_compounds() {
    assert_eq!(ResourceType::Hydroxide.reaction_time(), Some(20));
    assert_eq!(ResourceType::ZynthiumKeanite.reaction_time(), Some(5));
    assert_eq!(ResourceType::UtriumLemergite.reaction_time(), Some(5));
    assert_eq!(ResourceType::Ghodium.reaction_time(), Some(5));
    assert_eq!(ResourceType::UtriumHydride.reaction_time(), Some(10));
    assert_eq!(ResourceType::CatalyzedUtriumAcid.reaction_time(), Some(60));
    assert_eq!(ResourceType::LemergiumHydride.reaction_time(), Some(15));
    assert_eq!(ResourceType::CatalyzedLemergiumAcid.reaction_time(), Some(65));
    assert_eq!(ResourceType::ZynthiumHydride.reaction_time(), Some(20));
    assert_eq!(ResourceType::ZynthiumAcid.reaction_time(), Some(40));
    assert_eq!(ResourceType::CatalyzedZynthiumAcid.reaction_time(), Some(160));
    assert_eq!(ResourceType::GhodiumAcid.reaction_time(), Some(15));
    assert_eq!(ResourceType::CatalyzedGhodiumAcid.reaction_time(), Some(80));
    assert_eq!(ResourceType::GhodiumAlkalide.reaction_time(), Some(30));
    assert_eq!(ResourceType::CatalyzedGhodiumAlkalide.reaction_time(), Some(150));
    assert_eq!(ResourceType::Energy.reaction_time(), None);
    assert_eq!(ResourceType::Power.reaction_time(), None);
    assert_eq!(ResourceType::Hydrogen.reaction_time(), None);
    assert_eq!(ResourceType::Ops.reaction_time(), None);
    assert_eq!(ResourceType::Essence.reaction_time(), None);
    let with_time = (1..=84u16)
        .filter(|c| ResourceType::from_code(*c).unwrap().reaction_time().is_some())
        .count();
    assert_eq!(with_time, 34);
}

#[test]
fn effect_numbers_are_those_of_powers_and_natural_effects() {
    assert_eq!(EffectType::from_code(1), Some(EffectType::PowerEffect(PowerType::GenerateOps)));
    assert_eq!(EffectType::from_code(10), Some(EffectType::PowerEffect(PowerType::DisruptTower)));
    assert_eq!(EffectType::from_code(11), None);
    assert_eq!(EffectType::from_code(12), Some(EffectType::PowerEffect(PowerType::Shield)));
    assert_eq!(EffectType::from_code(19), Some(EffectType::PowerEffect(PowerType::OperateFactory)));
    assert_eq!(EffectType::from_code(20), None);
    assert_eq!(EffectType::from_code(0), None);
    assert_eq!(EffectType::from_code(256 + 1), None);
    assert_eq!(
        EffectType::from_code(1001),
        Some(EffectType::NaturalEffect(NaturalEffectType::Invulnerability))
    );
    assert_eq!(
        EffectType::from_code(1002),
        Some(EffectType::NaturalEffect(NaturalEffectType::CollapseTimer))
    );
    assert_eq!(EffectType::from_code(1003), None);
    assert_eq!(EffectType::from_code(1000), None);
    let known = (0..=u16::MAX).filter(|c| EffectType::from_code(*c).is_some()).count();
    assert_eq!(known, 20);
    for code in 0..=u16::MAX {
        if let Some(effect) = EffectType::from_code(code) {
            assert_eq!(effect.code(), code);
        }
    }
}

#[test]
fn power_and_class_numbers() {
    assert_eq!(PowerType::GenerateOps.code(), 1);
    assert_eq!(PowerType::Shield.code(), 12);
    assert_eq!(PowerType::from_code(11), None);
    assert_eq!(PowerType::from_code(19), Some(PowerType::OperateFactory));
    assert_eq!(NaturalEffectType::from_code(1001), Some(NaturalEffectType::Invulnerability));
    assert_eq!(NaturalEffectType::CollapseTimer.code(), 1002);
    assert_eq!(PowerCreepClass::Operator.code(), 1);
    assert_eq!(PowerCreepClass::Operator.name(), "operator");
    assert_eq!(PowerCreepClass::from_name("operator"), Some(PowerCreepClass::Operator));
    assert_eq!(PowerCreepClass::from_name("executor"), None);
    assert_eq!(PowerCreepClass::from_code(2), None);
    assert_eq!(IntershardResourceType::SubscriptionToken.code(), 1);
    assert_eq!(IntershardResourceType::SubscriptionToken.name(), "token");
    assert_eq!(
        IntershardResourceType::from_name("token"),
        Some(IntershardResourceType::SubscriptionToken)
    );
    assert_eq!(IntershardResourceType::from_name("tokens"), None);
    assert_eq!(IntershardResourceType::from_code(0), None);
}

#[test]
fn small_enum_numbers() {
    assert_eq!(ReturnCode::Okay.code(), 0);
    assert_eq!(ReturnCode::NotOwner.code(), -1);
    assert_eq!(ReturnCode::NoBodypart.code(), -12);
    assert_eq!(ReturnCode::RclNotEnough.code(), -14);
    assert_eq!(ReturnCode::GclNotEnough.code(), -15);
    assert_eq!(ReturnCode::from_code(-13), None);
    assert_eq!(ReturnCode::from_code(1), None);
    assert_eq!(ReturnCode::from_code(-10), Some(ReturnCode::InvalidArgs));
    assert_eq!(Direction::Top.code(), 1);
    assert_eq!(Direction::TopLeft.code(), 8);
    assert_eq!(Direction::from_code(0), None);
    assert_eq!(Direction::from_code(9), None);
    assert_eq!(Direction::from_code(4), Some(Direction::BottomRight));
    assert_eq!(Exit::from_code(3), Some(Exit::Right));
    assert_eq!(Exit::from_code(2), None);
    assert_eq!(Exit::Left.code(), 7);
    assert_eq!(Exit::Bottom.direction(), Direction::Bottom);
    assert_eq!(Color::Red.code(), 1);
    assert_eq!(Color::White.code(), 10);
    assert_eq!(Color::from_code(11), None);
    assert_eq!(Terrain::Plain.code(), 0);
    assert_eq!(Terrain::from_code(2), Some(Terrain::Swamp));
    assert_eq!(Terrain::from_code(3), None);
    assert_eq!(AttackType::from_code(6), Some(AttackType::Nuke));
    assert_eq!(AttackType::from_code(0), None);
    assert_eq!(HealType::from_code(2), Some(HealType::Ranged));
    assert_eq!(HealType::from_code(3), None);
}
