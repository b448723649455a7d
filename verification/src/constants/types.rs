//! The kinds of things in the game world, and the numbers and names under
//! which they cross the boundary to the host.

use crate::constants::numbers::{
    CONTAINER_HITS, EXTENSION_HITS, FACTORY_HITS, INVADER_CORE_HITS, LAB_HITS, LINK_HITS,
    NUKER_HITS, OBSERVER_HITS, POWER_BANK_HITS, POWER_SPAWN_HITS, RAMPART_HITS, ROAD_HITS,
    SPAWN_HITS, STORAGE_HITS, TOWER_HITS, WALL_HITS,
};
use crate::text::str_eq;
use vstd::prelude::*;

verus! {

/// The kinds of structure.
#[derive(Clone, Copy, Debug, PartialEq, Eq, Hash, Structural)]
pub enum StructureType {
    Spawn,
    Extension,
    Road,
    Wall,
    Rampart,
    KeeperLair,
    Portal,
    Controller,
    Link,
    Storage,
    Tower,
    Observer,
    PowerBank,
    PowerSpawn,
    Extractor,
    Lab,
    Terminal,
    Container,
    Nuker,
    Factory,
    InvaderCore,
}

impl StructureType {
    /// The number that stands for this kind of structure.
    pub open spec fn spec_code(self) -> u8 {
        match self {
            StructureType::Spawn => 0,
            StructureType::Extension => 1,
            StructureType::Road => 2,
            StructureType::Wall => 3,
            StructureType::Rampart => 4,
            StructureType::KeeperLair => 5,
            StructureType::Portal => 6,
            StructureType::Controller => 7,
            StructureType::Link => 8,
            StructureType::Storage => 9,
            StructureType::Tower => 10,
            StructureType::Observer => 11,
            StructureType::PowerBank => 12,
            StructureType::PowerSpawn => 13,
            StructureType::Extractor => 14,
            StructureType::Lab => 15,
            StructureType::Terminal => 16,
            StructureType::Container => 17,
            StructureType::Nuker => 18,
            StructureType::Factory => 19,
            StructureType::InvaderCore => 20,
        }
    }

    /// The number that stands for this kind of structure.
    pub fn code(self) -> (code: u8)
        ensures
            code == self.spec_code(),
    {
        match self {
            StructureType::Spawn => 0,
            StructureType::Extension => 1,
            StructureType::Road => 2,
            StructureType::Wall => 3,
            StructureType::Rampart => 4,
            StructureType::KeeperLair => 5,
            StructureType::Portal => 6,
            StructureType::Controller => 7,
            StructureType::Link => 8,
            StructureType::Storage => 9,
            StructureType::Tower => 10,
            StructureType::Observer => 11,
            StructureType::PowerBank => 12,
            StructureType::PowerSpawn => 13,
            StructureType::Extractor => 14,
            StructureType::Lab => 15,
            StructureType::Terminal => 16,
            StructureType::Container => 17,
            StructureType::Nuker => 18,
            StructureType::Factory => 19,
            StructureType::InvaderCore => 20,
        }
    }

    /// The kind of structure that `code` stands for, if there is one.
    pub fn from_code(code: u8) -> (found: Option<StructureType>)
        ensures
            match found {
                Some(t) => t.spec_code() == code,
                None => forall|t: StructureType| t.spec_code() != code,
            },
    {
        match code {
            0 => Some(StructureType::Spawn),
            1 => Some(StructureType::Extension),
            2 => Some(StructureType::Road),
            3 => Some(StructureType::Wall),
            4 => Some(StructureType::Rampart),
            5 => Some(StructureType::KeeperLair),
            6 => Some(StructureType::Portal),
            7 => Some(StructureType::Controller),
            8 => Some(StructureType::Link),
            9 => Some(StructureType::Storage),
            10 => Some(StructureType::Tower),
            11 => Some(StructureType::Observer),
            12 => Some(StructureType::PowerBank),
            13 => Some(StructureType::PowerSpawn),
            14 => Some(StructureType::Extractor),
            15 => Some(StructureType::Lab),
            16 => Some(StructureType::Terminal),
            17 => Some(StructureType::Container),
            18 => Some(StructureType::Nuker),
            19 => Some(StructureType::Factory),
            20 => Some(StructureType::InvaderCore),
            _ => None,
        }
    }

    /// No two values share a number.
    pub proof fn lemma_code_injective(a: StructureType, b: StructureType)
        ensures
            a.spec_code() == b.spec_code() ==> a == b,
    {
    }

    /// The string that the game uses for this kind of structure.
    pub open spec fn spec_name(self) -> Seq<char> {
        match self {
            StructureType::Spawn => "spawn"@,
            StructureType::Extension => "extension"@,
            StructureType::Road => "road"@,
            StructureType::Wall => "wall"@,
            StructureType::Rampart => "rampart"@,
            StructureType::KeeperLair => "keeperLair"@,
            StructureType::Portal => "portal"@,
            StructureType::Controller => "controller"@,
            StructureType::Link => "link"@,
            StructureType::Storage => "storage"@,
            StructureType::Tower => "tower"@,
            StructureType::Observer => "observer"@,
            StructureType::PowerBank => "powerBank"@,
            StructureType::PowerSpawn => "powerSpawn"@,
            StructureType::Extractor => "extractor"@,
            StructureType::Lab => "lab"@,
            StructureType::Terminal => "terminal"@,
            StructureType::Container => "container"@,
            StructureType::Nuker => "nuker"@,
            StructureType::Factory => "factory"@,
            StructureType::InvaderCore => "invaderCore"@,
        }
    }

    /// The string that the game uses for this kind of structure.
    pub fn name(self) -> (name: &'static str)
        ensures
            name@ == self.spec_name(),
    {
        match self {
            StructureType::Spawn => "spawn",
            StructureType::Extension => "extension",
            StructureType::Road => "road",
            StructureType::Wall => "wall",
            StructureType::Rampart => "rampart",
            StructureType::KeeperLair => "keeperLair",
            StructureType::Portal => "portal",
            StructureType::Controller => "controller",
            StructureType::Link => "link",
            StructureType::Storage => "storage",
            StructureType::Tower => "tower",
            StructureType::Observer => "observer",
            StructureType::PowerBank => "powerBank",
            StructureType::PowerSpawn => "powerSpawn",
            StructureType::Extractor => "extractor",
            StructureType::Lab => "lab",
            StructureType::Terminal => "terminal",
            StructureType::Container => "container",
            StructureType::Nuker => "nuker",
            StructureType::Factory => "factory",
            StructureType::InvaderCore => "invaderCore",
        }
    }

    /// The kind of structure that the game calls `name`, if there is one.
    pub fn from_name(name: &str) -> (found: Option<StructureType>)
        ensures
            match found {
                Some(t) => t.spec_name() == name@,
                None => forall|t: StructureType| t.spec_name() != name@,
            },
    {
        if str_eq(name, "spawn") {
            Some(StructureType::Spawn)
        }         else if str_eq(name, "extension") {
            Some(StructureType::Extension)
        }         else if str_eq(name, "road") {
            Some(StructureType::Road)
        }         else if str_eq(name, "wall") {
            Some(StructureType::Wall)
        }         else if str_eq(name, "rampart") {
            Some(StructureType::Rampart)
        }         else if str_eq(name, "keeperLair") {
            Some(StructureType::KeeperLair)
        }         else if str_eq(name, "portal") {
            Some(StructureType::Portal)
        }         else if str_eq(name, "controller") {
            Some(StructureType::Controller)
        }         else if str_eq(name, "link") {
            Some(StructureType::Link)
        }         else if str_eq(name, "storage") {
            Some(StructureType::Storage)
        }         else if str_eq(name, "tower") {
            Some(StructureType::Tower)
        }         else if str_eq(name, "observer") {
            Some(StructureType::Observer)
        }         else if str_eq(name, "powerBank") {
            Some(StructureType::PowerBank)
        }         else if str_eq(name, "powerSpawn") {
            Some(StructureType::PowerSpawn)
        }         else if str_eq(name, "extractor") {
            Some(StructureType::Extractor)
        }         else if str_eq(name, "lab") {
            Some(StructureType::Lab)
        }         else if str_eq(name, "terminal") {
            Some(StructureType::Terminal)
        }         else if str_eq(name, "container") {
            Some(StructureType::Container)
        }         else if str_eq(name, "nuker") {
            Some(StructureType::Nuker)
        }         else if str_eq(name, "factory") {
            Some(StructureType::Factory)
        }         else if str_eq(name, "invaderCore") {
            Some(StructureType::InvaderCore)
        } else {
            None
        }
    }

    /// No two values share a name.
    pub proof fn lemma_name_injective(a: StructureType, b: StructureType)
        ensures
            a.spec_name() == b.spec_name() ==> a == b,
    {
        let (x, y) = (a.spec_name(), b.spec_name());
        reveal_strlit("spawn");
        reveal_strlit("extension");
        reveal_strlit("road");
        reveal_strlit("wall");
        reveal_strlit("rampart");
        reveal_strlit("keeperLair");
        reveal_strlit("portal");
        reveal_strlit("controller");
        reveal_strlit("link");
        reveal_strlit("storage");
        reveal_strlit("tower");
        reveal_strlit("observer");
        reveal_strlit("powerBank");
        reveal_strlit("powerSpawn");
        reveal_strlit("extractor");
        reveal_strlit("lab");
        reveal_strlit("terminal");
        reveal_strlit("container");
        reveal_strlit("nuker");
        reveal_strlit("factory");
        reveal_strlit("invaderCore");
        assert(a != b ==> x.len() != y.len() || x[0] != y[0] || x[1] != y[1] || x[2] != y[2] || x[3] != y[3]);
    }

    /// What it costs to build a structure of this kind; `None` for the kinds
    /// that cannot be built.
    pub open spec fn spec_construction_cost(self) -> Option<u32> {
        match self {
            StructureType::Spawn => Some(15000),
            StructureType::Extension => Some(3000),
            StructureType::Road => Some(300),
            StructureType::Wall => Some(1),
            StructureType::Rampart => Some(1),
            StructureType::KeeperLair => None,
            StructureType::Portal => None,
            StructureType::Controller => None,
            StructureType::Link => Some(5000),
            StructureType::Storage => Some(30000),
            StructureType::Tower => Some(5000),
            StructureType::Observer => Some(8000),
            StructureType::PowerBank => None,
            StructureType::PowerSpawn => Some(100000),
            StructureType::Extractor => Some(5000),
            StructureType::Lab => Some(50000),
            StructureType::Terminal => Some(100000),
            StructureType::Container => Some(5000),
            StructureType::Nuker => Some(100000),
            StructureType::Factory => Some(100000),
            StructureType::InvaderCore => None,
        }
    }

    /// What it costs to build a structure of this kind; `None` for the kinds
    /// that cannot be built.
    pub fn construction_cost(self) -> (cost: Option<u32>)
        ensures
            cost == self.spec_construction_cost(),
    {
        let cost: u32 = match self {
            StructureType::Spawn => 15000,
            StructureType::Extension => 3000,
            StructureType::Road => 300,
            StructureType::Wall => 1,
            StructureType::Rampart => 1,
            StructureType::Link => 5000,
            StructureType::Storage => 30000,
            StructureType::Tower => 5000,
            StructureType::Observer => 8000,
            StructureType::PowerSpawn => 100000,
            StructureType::Extractor => 5000,
            StructureType::Lab => 50000,
            StructureType::Terminal => 100000,
            StructureType::Container => 5000,
            StructureType::Nuker => 100000,
            StructureType::Factory => 100000,
            StructureType::KeeperLair
            | StructureType::PowerBank
            | StructureType::Portal
            | StructureType::Controller
            | StructureType::InvaderCore => return None,
        };
        Some(cost)
    }

    /// The hit points that a structure of this kind starts with; `None` for
    /// the kinds that cannot be damaged.
    pub open spec fn spec_initial_hits(self) -> Option<u32> {
        match self {
            StructureType::Spawn => Some(SPAWN_HITS),
            StructureType::Extension => Some(EXTENSION_HITS),
            StructureType::Road => Some(ROAD_HITS),
            StructureType::Wall => Some(WALL_HITS),
            StructureType::Rampart => Some(RAMPART_HITS),
            StructureType::KeeperLair => None,
            StructureType::Portal => None,
            StructureType::Controller => None,
            StructureType::Link => Some(LINK_HITS),
            StructureType::Storage => Some(STORAGE_HITS),
            StructureType::Tower => Some(TOWER_HITS),
            StructureType::Observer => Some(OBSERVER_HITS),
            StructureType::PowerBank => Some(POWER_BANK_HITS),
            StructureType::PowerSpawn => Some(POWER_SPAWN_HITS),
            StructureType::Extractor => Some(EXTENSION_HITS),
            StructureType::Lab => Some(LAB_HITS),
            StructureType::Terminal => Some(TOWER_HITS),
            StructureType::Container => Some(CONTAINER_HITS),
            StructureType::Nuker => Some(NUKER_HITS),
            StructureType::Factory => Some(FACTORY_HITS),
            StructureType::InvaderCore => Some(INVADER_CORE_HITS),
        }
    }

    /// The hit points that a structure of this kind starts with; `None` for
    /// the kinds that cannot be damaged.
    pub fn initial_hits(self) -> (hits: Option<u32>)
        ensures
            hits == self.spec_initial_hits(),
    {
        let hits: u32 = match self {
            StructureType::Spawn => SPAWN_HITS,
            StructureType::Extension => EXTENSION_HITS,
            StructureType::Road => ROAD_HITS,
            StructureType::Wall => WALL_HITS,
            StructureType::Rampart => RAMPART_HITS,
            StructureType::Link => LINK_HITS,
            StructureType::Storage => STORAGE_HITS,
            StructureType::Tower => TOWER_HITS,
            StructureType::Observer => OBSERVER_HITS,
            StructureType::PowerBank => POWER_BANK_HITS,
            StructureType::PowerSpawn => POWER_SPAWN_HITS,
            StructureType::Extractor => EXTENSION_HITS,
            StructureType::Lab => LAB_HITS,
            StructureType::Terminal => TOWER_HITS,
            StructureType::Container => CONTAINER_HITS,
            StructureType::Nuker => NUKER_HITS,
            StructureType::Factory => FACTORY_HITS,
            StructureType::InvaderCore => INVADER_CORE_HITS,
            StructureType::KeeperLair | StructureType::Portal | StructureType::Controller => return None,
        };
        Some(hits)
    }
}

/// The resources that an account holds across shards.
#[derive(Clone, Copy, Debug, PartialEq, Eq, Hash, Structural)]
pub enum IntershardResourceType {
    /// `"token"`
    SubscriptionToken,
}

impl IntershardResourceType {
    /// The number that stands for this account resource.
    pub open spec fn spec_code(self) -> u8 {
        match self {
            IntershardResourceType::SubscriptionToken => 1,
        }
    }

    /// The number that stands for this account resource.
    pub fn code(self) -> (code: u8)
        ensures
            code == self.spec_code(),
    {
        match self {
            IntershardResourceType::SubscriptionToken => 1,
        }
    }

    /// The account resource that `code` stands for, if there is one.
    pub fn from_code(code: u8) -> (found: Option<IntershardResourceType>)
        ensures
            match found {
                Some(t) => t.spec_code() == code,
                None => forall|t: IntershardResourceType| t.spec_code() != code,
            },
    {
        match code {
            1 => Some(IntershardResourceType::SubscriptionToken),
            _ => None,
        }
    }

    /// No two values share a number.
    pub proof fn lemma_code_injective(a: IntershardResourceType, b: IntershardResourceType)
        ensures
            a.spec_code() == b.spec_code() ==> a == b,
    {
    }

    /// The string that the game uses for this account resource.
    pub open spec fn spec_name(self) -> Seq<char> {
        match self {
            IntershardResourceType::SubscriptionToken => "token"@,
        }
    }

    /// The string that the game uses for this account resource.
    pub fn name(self) -> (name: &'static str)
        ensures
            name@ == self.spec_name(),
    {
        match self {
            IntershardResourceType::SubscriptionToken => "token",
        }
    }

    /// The account resource that the game calls `name`, if there is one.
    pub fn from_name(name: &str) -> (found: Option<IntershardResourceType>)
        ensures
            match found {
                Some(t) => t.spec_name() == name@,
                None => forall|t: IntershardResourceType| t.spec_name() != name@,
            },
    {
        if str_eq(name, "token") {
            Some(IntershardResourceType::SubscriptionToken)
        } else {
            None
        }
    }

    /// No two values share a name.
    pub proof fn lemma_name_injective(a: IntershardResourceType, b: IntershardResourceType)
        ensures
            a.spec_name() == b.spec_name() ==> a == b,
    {
    }
}

/// The resources that can be stored, carried and traded.
#[derive(Clone, Copy, Debug, PartialEq, Eq, Hash, Structural)]
pub enum ResourceType {
    /// `"energy"`
    Energy,
    /// `"power"`
    Power,
    /// `"H"`
    Hydrogen,
    /// `"O"`
    Oxygen,
    /// `"U"`
    Utrium,
    /// `"L"`
    Lemergium,
    /// `"K"`
    Keanium,
    /// `"Z"`
    Zynthium,
    /// `"X"`
    Catalyst,
    /// `"G"`
    Ghodium,
    /// `"OH"`
    Hydroxide,
    /// `"ZK"`
    ZynthiumKeanite,
    /// `"UL"`
    UtriumLemergite,
    /// `"UH"`
    UtriumHydride,
    /// `"UO"`
    UtriumOxide,
    /// `"KH"`
    KeaniumHydride,
    /// `"KO"`
    KeaniumOxide,
    /// `"LH"`
    LemergiumHydride,
    /// `"LO"`
    LemergiumOxide,
    /// `"ZH"`
    ZynthiumHydride,
    /// `"ZO"`
    ZynthiumOxide,
    /// `"GH"`
    GhodiumHydride,
    /// `"GO"`
    GhodiumOxide,
    /// `"UH2O"`
    UtriumAcid,
    /// `"UHO2"`
    UtriumAlkalide,
    /// `"KH2O"`
    KeaniumAcid,
    /// `"KHO2"`
    KeaniumAlkalide,
    /// `"LH2O"`
    LemergiumAcid,
    /// `"LHO2"`
    LemergiumAlkalide,
    /// `"ZH2O"`
    ZynthiumAcid,
    /// `"ZHO2"`
    ZynthiumAlkalide,
    /// `"GH2O"`
    GhodiumAcid,
    /// `"GHO2"`
    GhodiumAlkalide,
    /// `"XUH2O"`
    CatalyzedUtriumAcid,
    /// `"XUHO2"`
    CatalyzedUtriumAlkalide,
    /// `"XKH2O"`
    CatalyzedKeaniumAcid,
    /// `"XKHO2"`
    CatalyzedKeaniumAlkalide,
    /// `"XLH2O"`
    CatalyzedLemergiumAcid,
    /// `"XLHO2"`
    CatalyzedLemergiumAlkalide,
    /// `"XZH2O"`
    CatalyzedZynthiumAcid,
    /// `"XZHO2"`
    CatalyzedZynthiumAlkalide,
    /// `"XGH2O"`
    CatalyzedGhodiumAcid,
    /// `"XGHO2"`
    CatalyzedGhodiumAlkalide,
    /// `"ops"`
    Ops,
    /// `"silicon"`
    Silicon,
    /// `"metal"`
    Metal,
    /// `"biomass"`
    Biomass,
    /// `"mist"`
    Mist,
    /// `"utrium_bar"`
    UtriumBar,
    /// `"lemergium_bar"`
    LemergiumBar,
    /// `"zynthium_bar"`
    ZynthiumBar,
    /// `"keanium_bar"`
    KeaniumBar,
    /// `"ghodium_melt"`
    GhodiumMelt,
    /// `"oxidant"`
    Oxidant,
    /// `"reductant"`
    Reductant,
    /// `"purifier"`
    Purifier,
    /// `"battery"`
    Battery,
    /// `"composite"`
    Composite,
    /// `"crystal"`
    Crystal,
    /// `"liquid"`
    Liquid,
    /// `"wire"`
    Wire,
    /// `"switch"`
    Switch,
    /// `"transistor"`
    Transistor,
    /// `"microchip"`
    Microchip,
    /// `"circuit"`
    Circuit,
    /// `"device"`
    Device,
    /// `"cell"`
    Cell,
    /// `"phlegm"`
    Phlegm,
    /// `"tissue"`
    Tissue,
    /// `"muscle"`
    Muscle,
    /// `"organoid"`
    Organoid,
    /// `"organism"`
    Organism,
    /// `"alloy"`
    Alloy,
    /// `"tube"`
    Tube,
    /// `"fixtures"`
    Fixtures,
    /// `"frame"`
    Frame,
    /// `"hydraulics"`
    Hydraulics,
    /// `"machine"`
    Machine,
    /// `"condensate"`
    Condensate,
    /// `"concentrate"`
    Concentrate,
    /// `"extract"`
    Extract,
    /// `"spirit"`
    Spirit,
    /// `"emanation"`
    Emanation,
    /// `"essence"`
    Essence,
}

impl ResourceType {
    /// The number that stands for this resource.
    pub open spec fn spec_code(self) -> u16 {
        match self {
            ResourceType::Energy => 1,
            ResourceType::Power => 2,
            ResourceType::Hydrogen => 3,
            ResourceType::Oxygen => 4,
            ResourceType::Utrium => 5,
            ResourceType::Lemergium => 6,
            ResourceType::Keanium => 7,
            ResourceType::Zynthium => 8,
            ResourceType::Catalyst => 9,
            ResourceType::Ghodium => 10,
            ResourceType::Hydroxide => 11,
            ResourceType::ZynthiumKeanite => 12,
            ResourceType::UtriumLemergite => 13,
            ResourceType::UtriumHydride => 14,
            ResourceType::UtriumOxide => 15,
            ResourceType::KeaniumHydride => 16,
            ResourceType::KeaniumOxide => 17,
            ResourceType::LemergiumHydride => 18,
            ResourceType::LemergiumOxide => 19,
            ResourceType::ZynthiumHydride => 20,
            ResourceType::ZynthiumOxide => 21,
            ResourceType::GhodiumHydride => 22,
            ResourceType::GhodiumOxide => 23,
            ResourceType::UtriumAcid => 24,
            ResourceType::UtriumAlkalide => 25,
            ResourceType::KeaniumAcid => 26,
            ResourceType::KeaniumAlkalide => 27,
            ResourceType::LemergiumAcid => 28,
            ResourceType::LemergiumAlkalide => 29,
            ResourceType::ZynthiumAcid => 30,
            ResourceType::ZynthiumAlkalide => 31,
            ResourceType::GhodiumAcid => 32,
            ResourceType::GhodiumAlkalide => 33,
            ResourceType::CatalyzedUtriumAcid => 34,
            ResourceType::CatalyzedUtriumAlkalide => 35,
            ResourceType::CatalyzedKeaniumAcid => 36,
            ResourceType::CatalyzedKeaniumAlkalide => 37,
            ResourceType::CatalyzedLemergiumAcid => 38,
            ResourceType::CatalyzedLemergiumAlkalide => 39,
            ResourceType::CatalyzedZynthiumAcid => 40,
            ResourceType::CatalyzedZynthiumAlkalide => 41,
            ResourceType::CatalyzedGhodiumAcid => 42,
            ResourceType::CatalyzedGhodiumAlkalide => 43,
            ResourceType::Ops => 44,
            ResourceType::Silicon => 45,
            ResourceType::Metal => 46,
            ResourceType::Biomass => 47,
            ResourceType::Mist => 48,
            ResourceType::UtriumBar => 49,
            ResourceType::LemergiumBar => 50,
            ResourceType::ZynthiumBar => 51,
            ResourceType::KeaniumBar => 52,
            ResourceType::GhodiumMelt => 53,
            ResourceType::Oxidant => 54,
            ResourceType::Reductant => 55,
            ResourceType::Purifier => 56,
            ResourceType::Battery => 57,
            ResourceType::Composite => 58,
            ResourceType::Crystal => 59,
            ResourceType::Liquid => 60,
            ResourceType::Wire => 61,
            ResourceType::Switch => 62,
            ResourceType::Transistor => 63,
            ResourceType::Microchip => 64,
            ResourceType::Circuit => 65,
            ResourceType::Device => 66,
            ResourceType::Cell => 67,
            ResourceType::Phlegm => 68,
            ResourceType::Tissue => 69,
            ResourceType::Muscle => 70,
            ResourceType::Organoid => 71,
            ResourceType::Organism => 72,
            ResourceType::Alloy => 73,
            ResourceType::Tube => 74,
            ResourceType::Fixtures => 75,
            ResourceType::Frame => 76,
            ResourceType::Hydraulics => 77,
            ResourceType::Machine => 78,
            ResourceType::Condensate => 79,
            ResourceType::Concentrate => 80,
            ResourceType::Extract => 81,
            ResourceType::Spirit => 82,
            ResourceType::Emanation => 83,
            ResourceType::Essence => 84,
        }
    }

    /// The number that stands for this resource.
    pub fn code(self) -> (code: u16)
        ensures
            code == self.spec_code(),
    {
        match self {
            ResourceType::Energy => 1,
            ResourceType::Power => 2,
            ResourceType::Hydrogen => 3,
            ResourceType::Oxygen => 4,
            ResourceType::Utrium => 5,
            ResourceType::Lemergium => 6,
            ResourceType::Keanium => 7,
            ResourceType::Zynthium => 8,
            ResourceType::Catalyst => 9,
            ResourceType::Ghodium => 10,
            ResourceType::Hydroxide => 11,
            ResourceType::ZynthiumKeanite => 12,
            ResourceType::UtriumLemergite => 13,
            ResourceType::UtriumHydride => 14,
            ResourceType::UtriumOxide => 15,
            ResourceType::KeaniumHydride => 16,
            ResourceType::KeaniumOxide => 17,
            ResourceType::LemergiumHydride => 18,
            ResourceType::LemergiumOxide => 19,
            ResourceType::ZynthiumHydride => 20,
            ResourceType::ZynthiumOxide => 21,
            ResourceType::GhodiumHydride => 22,
            ResourceType::GhodiumOxide => 23,
            ResourceType::UtriumAcid => 24,
            ResourceType::UtriumAlkalide => 25,
            ResourceType::KeaniumAcid => 26,
            ResourceType::KeaniumAlkalide => 27,
            ResourceType::LemergiumAcid => 28,
            ResourceType::LemergiumAlkalide => 29,
            ResourceType::ZynthiumAcid => 30,
            ResourceType::ZynthiumAlkalide => 31,
            ResourceType::GhodiumAcid => 32,
            ResourceType::GhodiumAlkalide => 33,
            ResourceType::CatalyzedUtriumAcid => 34,
            ResourceType::CatalyzedUtriumAlkalide => 35,
            ResourceType::CatalyzedKeaniumAcid => 36,
            ResourceType::CatalyzedKeaniumAlkalide => 37,
            ResourceType::CatalyzedLemergiumAcid => 38,
            ResourceType::CatalyzedLemergiumAlkalide => 39,
            ResourceType::CatalyzedZynthiumAcid => 40,
            ResourceType::CatalyzedZynthiumAlkalide => 41,
            ResourceType::CatalyzedGhodiumAcid => 42,
            ResourceType::CatalyzedGhodiumAlkalide => 43,
            ResourceType::Ops => 44,
            ResourceType::Silicon => 45,
            ResourceType::Metal => 46,
            ResourceType::Biomass => 47,
            ResourceType::Mist => 48,
            ResourceType::UtriumBar => 49,
            ResourceType::LemergiumBar => 50,
            ResourceType::ZynthiumBar => 51,
            ResourceType::KeaniumBar => 52,
            ResourceType::GhodiumMelt => 53,
            ResourceType::Oxidant => 54,
            ResourceType::Reductant => 55,
            ResourceType::Purifier => 56,
            ResourceType::Battery => 57,
            ResourceType::Composite => 58,
            ResourceType::Crystal => 59,
            ResourceType::Liquid => 60,
            ResourceType::Wire => 61,
            ResourceType::Switch => 62,
            ResourceType::Transistor => 63,
            ResourceType::Microchip => 64,
            ResourceType::Circuit => 65,
            ResourceType::Device => 66,
            ResourceType::Cell => 67,
            ResourceType::Phlegm => 68,
            ResourceType::Tissue => 69,
            ResourceType::Muscle => 70,
            ResourceType::Organoid => 71,
            ResourceType::Organism => 72,
            ResourceType::Alloy => 73,
            ResourceType::Tube => 74,
            ResourceType::Fixtures => 75,
            ResourceType::Frame => 76,
            ResourceType::Hydraulics => 77,
            ResourceType::Machine => 78,
            ResourceType::Condensate => 79,
            ResourceType::Concentrate => 80,
            ResourceType::Extract => 81,
            ResourceType::Spirit => 82,
            ResourceType::Emanation => 83,
            ResourceType::Essence => 84,
        }
    }

    /// The resource that `code` stands for, if there is one.
    pub fn from_code(code: u16) -> (found: Option<ResourceType>)
        ensures
            match found {
                Some(t) => t.spec_code() == code,
                None => forall|t: ResourceType| t.spec_code() != code,
            },
    {
        match code {
            1 => Some(ResourceType::Energy),
            2 => Some(ResourceType::Power),
            3 => Some(ResourceType::Hydrogen),
            4 => Some(ResourceType::Oxygen),
            5 => Some(ResourceType::Utrium),
            6 => Some(ResourceType::Lemergium),
            7 => Some(ResourceType::Keanium),
            8 => Some(ResourceType::Zynthium),
            9 => Some(ResourceType::Catalyst),
            10 => Some(ResourceType::Ghodium),
            11 => Some(ResourceType::Hydroxide),
            12 => Some(ResourceType::ZynthiumKeanite),
            13 => Some(ResourceType::UtriumLemergite),
            14 => Some(ResourceType::UtriumHydride),
            15 => Some(ResourceType::UtriumOxide),
            16 => Some(ResourceType::KeaniumHydride),
            17 => Some(ResourceType::KeaniumOxide),
            18 => Some(ResourceType::LemergiumHydride),
            19 => Some(ResourceType::LemergiumOxide),
            20 => Some(ResourceType::ZynthiumHydride),
            21 => Some(ResourceType::ZynthiumOxide),
            22 => Some(ResourceType::GhodiumHydride),
            23 => Some(ResourceType::GhodiumOxide),
            24 => Some(ResourceType::UtriumAcid),
            25 => Some(ResourceType::UtriumAlkalide),
            26 => Some(ResourceType::KeaniumAcid),
            27 => Some(ResourceType::KeaniumAlkalide),
            28 => Some(ResourceType::LemergiumAcid),
            29 => Some(ResourceType::LemergiumAlkalide),
            30 => Some(ResourceType::ZynthiumAcid),
            31 => Some(ResourceType::ZynthiumAlkalide),
            32 => Some(ResourceType::GhodiumAcid),
            33 => Some(ResourceType::GhodiumAlkalide),
            34 => Some(ResourceType::CatalyzedUtriumAcid),
            35 => Some(ResourceType::CatalyzedUtriumAlkalide),
            36 => Some(ResourceType::CatalyzedKeaniumAcid),
            37 => Some(ResourceType::CatalyzedKeaniumAlkalide),
            38 => Some(ResourceType::CatalyzedLemergiumAcid),
            39 => Some(ResourceType::CatalyzedLemergiumAlkalide),
            40 => Some(ResourceType::CatalyzedZynthiumAcid),
            41 => Some(ResourceType::CatalyzedZynthiumAlkalide),
            42 => Some(ResourceType::CatalyzedGhodiumAcid),
            43 => Some(ResourceType::CatalyzedGhodiumAlkalide),
            44 => Some(ResourceType::Ops),
            45 => Some(ResourceType::Silicon),
            46 => Some(ResourceType::Metal),
            47 => Some(ResourceType::Biomass),
            48 => Some(ResourceType::Mist),
            49 => Some(ResourceType::UtriumBar),
            50 => Some(ResourceType::LemergiumBar),
            51 => Some(ResourceType::ZynthiumBar),
            52 => Some(ResourceType::KeaniumBar),
            53 => Some(ResourceType::GhodiumMelt),
            54 => Some(ResourceType::Oxidant),
            55 => Some(ResourceType::Reductant),
            56 => Some(ResourceType::Purifier),
            57 => Some(ResourceType::Battery),
            58 => Some(ResourceType::Composite),
            59 => Some(ResourceType::Crystal),
            60 => Some(ResourceType::Liquid),
            61 => Some(ResourceType::Wire),
            62 => Some(ResourceType::Switch),
            63 => Some(ResourceType::Transistor),
            64 => Some(ResourceType::Microchip),
            65 => Some(ResourceType::Circuit),
            66 => Some(ResourceType::Device),
            67 => Some(ResourceType::Cell),
            68 => Some(ResourceType::Phlegm),
            69 => Some(ResourceType::Tissue),
            70 => Some(ResourceType::Muscle),
            71 => Some(ResourceType::Organoid),
            72 => Some(ResourceType::Organism),
            73 => Some(ResourceType::Alloy),
            74 => Some(ResourceType::Tube),
            75 => Some(ResourceType::Fixtures),
            76 => Some(ResourceType::Frame),
            77 => Some(ResourceType::Hydraulics),
            78 => Some(ResourceType::Machine),
            79 => Some(ResourceType::Condensate),
            80 => Some(ResourceType::Concentrate),
            81 => Some(ResourceType::Extract),
            82 => Some(ResourceType::Spirit),
            83 => Some(ResourceType::Emanation),
            84 => Some(ResourceType::Essence),
            _ => None,
        }
    }

    /// No two values share a number.
    pub proof fn lemma_code_injective(a: ResourceType, b: ResourceType)
        ensures
            a.spec_code() == b.spec_code() ==> a == b,
    {
    }

    /// The string that the game uses for this resource.
    pub open spec fn spec_name(self) -> Seq<char> {
        match self {
            ResourceType::Energy => "energy"@,
            ResourceType::Power => "power"@,
            ResourceType::Hydrogen => "H"@,
            ResourceType::Oxygen => "O"@,
            ResourceType::Utrium => "U"@,
            ResourceType::Lemergium => "L"@,
            ResourceType::Keanium => "K"@,
            ResourceType::Zynthium => "Z"@,
            ResourceType::Catalyst => "X"@,
            ResourceType::Ghodium => "G"@,
            ResourceType::Hydroxide => "OH"@,
            ResourceType::ZynthiumKeanite => "ZK"@,
            ResourceType::UtriumLemergite => "UL"@,
            ResourceType::UtriumHydride => "UH"@,
            ResourceType::UtriumOxide => "UO"@,
            ResourceType::KeaniumHydride => "KH"@,
            ResourceType::KeaniumOxide => "KO"@,
            ResourceType::LemergiumHydride => "LH"@,
            ResourceType::LemergiumOxide => "LO"@,
            ResourceType::ZynthiumHydride => "ZH"@,
            ResourceType::ZynthiumOxide => "ZO"@,
            ResourceType::GhodiumHydride => "GH"@,
            ResourceType::GhodiumOxide => "GO"@,
            ResourceType::UtriumAcid => "UH2O"@,
            ResourceType::UtriumAlkalide => "UHO2"@,
            ResourceType::KeaniumAcid => "KH2O"@,
            ResourceType::KeaniumAlkalide => "KHO2"@,
            ResourceType::LemergiumAcid => "LH2O"@,
            ResourceType::LemergiumAlkalide => "LHO2"@,
            ResourceType::ZynthiumAcid => "ZH2O"@,
            ResourceType::ZynthiumAlkalide => "ZHO2"@,
            ResourceType::GhodiumAcid => "GH2O"@,
            ResourceType::GhodiumAlkalide => "GHO2"@,
            ResourceType::CatalyzedUtriumAcid => "XUH2O"@,
            ResourceType::CatalyzedUtriumAlkalide => "XUHO2"@,
            ResourceType::CatalyzedKeaniumAcid => "XKH2O"@,
            ResourceType::CatalyzedKeaniumAlkalide => "XKHO2"@,
            ResourceType::CatalyzedLemergiumAcid => "XLH2O"@,
            ResourceType::CatalyzedLemergiumAlkalide => "XLHO2"@,
            ResourceType::CatalyzedZynthiumAcid => "XZH2O"@,
            ResourceType::CatalyzedZynthiumAlkalide => "XZHO2"@,
            ResourceType::CatalyzedGhodiumAcid => "XGH2O"@,
            ResourceType::CatalyzedGhodiumAlkalide => "XGHO2"@,
            ResourceType::Ops => "ops"@,
            ResourceType::Silicon => "silicon"@,
            ResourceType::Metal => "metal"@,
            ResourceType::Biomass => "biomass"@,
            ResourceType::Mist => "mist"@,
            ResourceType::UtriumBar => "utrium_bar"@,
            ResourceType::LemergiumBar => "lemergium_bar"@,
            ResourceType::ZynthiumBar => "zynthium_bar"@,
            ResourceType::KeaniumBar => "keanium_bar"@,
            ResourceType::GhodiumMelt => "ghodium_melt"@,
            ResourceType::Oxidant => "oxidant"@,
            ResourceType::Reductant => "reductant"@,
            ResourceType::Purifier => "purifier"@,
            ResourceType::Battery => "battery"@,
            ResourceType::Composite => "composite"@,
            ResourceType::Crystal => "crystal"@,
            ResourceType::Liquid => "liquid"@,
            ResourceType::Wire => "wire"@,
            ResourceType::Switch => "switch"@,
            ResourceType::Transistor => "transistor"@,
            ResourceType::Microchip => "microchip"@,
            ResourceType::Circuit => "circuit"@,
            ResourceType::Device => "device"@,
            ResourceType::Cell => "cell"@,
            ResourceType::Phlegm => "phlegm"@,
            ResourceType::Tissue => "tissue"@,
            ResourceType::Muscle => "muscle"@,
            ResourceType::Organoid => "organoid"@,
            ResourceType::Organism => "organism"@,
            ResourceType::Alloy => "alloy"@,
            ResourceType::Tube => "tube"@,
            ResourceType::Fixtures => "fixtures"@,
            ResourceType::Frame => "frame"@,
            ResourceType::Hydraulics => "hydraulics"@,
            ResourceType::Machine => "machine"@,
            ResourceType::Condensate => "condensate"@,
            ResourceType::Concentrate => "concentrate"@,
            ResourceType::Extract => "extract"@,
            ResourceType::Spirit => "spirit"@,
            ResourceType::Emanation => "emanation"@,
            ResourceType::Essence => "essence"@,
        }
    }

    /// The string that the game uses for this resource.
    pub fn name(self) -> (name: &'static str)
        ensures
            name@ == self.spec_name(),
    {
        match self {
            ResourceType::Energy => "energy",
            ResourceType::Power => "power",
            ResourceType::Hydrogen => "H",
            ResourceType::Oxygen => "O",
            ResourceType::Utrium => "U",
            ResourceType::Lemergium => "L",
            ResourceType::Keanium => "K",
            ResourceType::Zynthium => "Z",
            ResourceType::Catalyst => "X",
            ResourceType::Ghodium => "G",
            ResourceType::Hydroxide => "OH",
            ResourceType::ZynthiumKeanite => "ZK",
            ResourceType::UtriumLemergite => "UL",
            ResourceType::UtriumHydride => "UH",
            ResourceType::UtriumOxide => "UO",
            ResourceType::KeaniumHydride => "KH",
            ResourceType::KeaniumOxide => "KO",
            ResourceType::LemergiumHydride => "LH",
            ResourceType::LemergiumOxide => "LO",
            ResourceType::ZynthiumHydride => "ZH",
            ResourceType::ZynthiumOxide => "ZO",
            ResourceType::GhodiumHydride => "GH",
            ResourceType::GhodiumOxide => "GO",
            ResourceType::UtriumAcid => "UH2O",
            ResourceType::UtriumAlkalide => "UHO2",
            ResourceType::KeaniumAcid => "KH2O",
            ResourceType::KeaniumAlkalide => "KHO2",
            ResourceType::LemergiumAcid => "LH2O",
            ResourceType::LemergiumAlkalide => "LHO2",
            ResourceType::ZynthiumAcid => "ZH2O",
            ResourceType::ZynthiumAlkalide => "ZHO2",
            ResourceType::GhodiumAcid => "GH2O",
            ResourceType::GhodiumAlkalide => "GHO2",
            ResourceType::CatalyzedUtriumAcid => "XUH2O",
            ResourceType::CatalyzedUtriumAlkalide => "XUHO2",
            ResourceType::CatalyzedKeaniumAcid => "XKH2O",
            ResourceType::CatalyzedKeaniumAlkalide => "XKHO2",
            ResourceType::CatalyzedLemergiumAcid => "XLH2O",
            ResourceType::CatalyzedLemergiumAlkalide => "XLHO2",
            ResourceType::CatalyzedZynthiumAcid => "XZH2O",
            ResourceType::CatalyzedZynthiumAlkalide => "XZHO2",
            ResourceType::CatalyzedGhodiumAcid => "XGH2O",
            ResourceType::CatalyzedGhodiumAlkalide => "XGHO2",
            ResourceType::Ops => "ops",
            ResourceType::Silicon => "silicon",
            ResourceType::Metal => "metal",
            ResourceType::Biomass => "biomass",
            ResourceType::Mist => "mist",
            ResourceType::UtriumBar => "utrium_bar",
            ResourceType::LemergiumBar => "lemergium_bar",
            ResourceType::ZynthiumBar => "zynthium_bar",
            ResourceType::KeaniumBar => "keanium_bar",
            ResourceType::GhodiumMelt => "ghodium_melt",
            ResourceType::Oxidant => "oxidant",
            ResourceType::Reductant => "reductant",
            ResourceType::Purifier => "purifier",
            ResourceType::Battery => "battery",
            ResourceType::Composite => "composite",
            ResourceType::Crystal => "crystal",
            ResourceType::Liquid => "liquid",
            ResourceType::Wire => "wire",
            ResourceType::Switch => "switch",
            ResourceType::Transistor => "transistor",
            ResourceType::Microchip => "microchip",
            ResourceType::Circuit => "circuit",
            ResourceType::Device => "device",
            ResourceType::Cell => "cell",
            ResourceType::Phlegm => "phlegm",
            ResourceType::Tissue => "tissue",
            ResourceType::Muscle => "muscle",
            ResourceType::Organoid => "organoid",
            ResourceType::Organism => "organism",
            ResourceType::Alloy => "alloy",
            ResourceType::Tube => "tube",
            ResourceType::Fixtures => "fixtures",
            ResourceType::Frame => "frame",
            ResourceType::Hydraulics => "hydraulics",
            ResourceType::Machine => "machine",
            ResourceType::Condensate => "condensate",
            ResourceType::Concentrate => "concentrate",
            ResourceType::Extract => "extract",
            ResourceType::Spirit => "spirit",
            ResourceType::Emanation => "emanation",
            ResourceType::Essence => "essence",
        }
    }

    /// The resource that the game calls `name`, if there is one.
    pub fn from_name(name: &str) -> (found: Option<ResourceType>)
        ensures
            match found {
                Some(t) => t.spec_name() == name@,
                None => forall|t: ResourceType| t.spec_name() != name@,
            },
    {
        if str_eq(name, "energy") {
            Some(ResourceType::Energy)
        }         else if str_eq(name, "power") {
            Some(ResourceType::Power)
        }         else if str_eq(name, "H") {
            Some(ResourceType::Hydrogen)
        }         else if str_eq(name, "O") {
            Some(ResourceType::Oxygen)
        }         else if str_eq(name, "U") {
            Some(ResourceType::Utrium)
        }         else if str_eq(name, "L") {
            Some(ResourceType::Lemergium)
        }         else if str_eq(name, "K") {
            Some(ResourceType::Keanium)
        }         else if str_eq(name, "Z") {
            Some(ResourceType::Zynthium)
        }         else if str_eq(name, "X") {
            Some(ResourceType::Catalyst)
        }         else if str_eq(name, "G") {
            Some(ResourceType::Ghodium)
        }         else if str_eq(name, "OH") {
            Some(ResourceType::Hydroxide)
        }         else if str_eq(name, "ZK") {
            Some(ResourceType::ZynthiumKeanite)
        }         else if str_eq(name, "UL") {
            Some(ResourceType::UtriumLemergite)
        }         else if str_eq(name, "UH") {
            Some(ResourceType::UtriumHydride)
        }         else if str_eq(name, "UO") {
            Some(ResourceType::UtriumOxide)
        }         else if str_eq(name, "KH") {
            Some(ResourceType::KeaniumHydride)
        }         else if str_eq(name, "KO") {
            Some(ResourceType::KeaniumOxide)
        }         else if str_eq(name, "LH") {
            Some(ResourceType::LemergiumHydride)
        }         else if str_eq(name, "LO") {
            Some(ResourceType::LemergiumOxide)
        }         else if str_eq(name, "ZH") {
            Some(ResourceType::ZynthiumHydride)
        }         else if str_eq(name, "ZO") {
            Some(ResourceType::ZynthiumOxide)
        }         else if str_eq(name, "GH") {
            Some(ResourceType::GhodiumHydride)
        }         else if str_eq(name, "GO") {
            Some(ResourceType::GhodiumOxide)
        }         else if str_eq(name, "UH2O") {
            Some(ResourceType::UtriumAcid)
        }         else if str_eq(name, "UHO2") {
            Some(ResourceType::UtriumAlkalide)
        }         else if str_eq(name, "KH2O") {
            Some(ResourceType::KeaniumAcid)
        }         else if str_eq(name, "KHO2") {
            Some(ResourceType::KeaniumAlkalide)
        }         else if str_eq(name, "LH2O") {
            Some(ResourceType::LemergiumAcid)
        }         else if str_eq(name, "LHO2") {
            Some(ResourceType::LemergiumAlkalide)
        }         else if str_eq(name, "ZH2O") {
            Some(ResourceType::ZynthiumAcid)
        }         else if str_eq(name, "ZHO2") {
            Some(ResourceType::ZynthiumAlkalide)
        }         else if str_eq(name, "GH2O") {
            Some(ResourceType::GhodiumAcid)
        }         else if str_eq(name, "GHO2") {
            Some(ResourceType::GhodiumAlkalide)
        }         else if str_eq(name, "XUH2O") {
            Some(ResourceType::CatalyzedUtriumAcid)
        }         else if str_eq(name, "XUHO2") {
            Some(ResourceType::CatalyzedUtriumAlkalide)
        }         else if str_eq(name, "XKH2O") {
            Some(ResourceType::CatalyzedKeaniumAcid)
        }         else if str_eq(name, "XKHO2") {
            Some(ResourceType::CatalyzedKeaniumAlkalide)
        }         else if str_eq(name, "XLH2O") {
            Some(ResourceType::CatalyzedLemergiumAcid)
        }         else if str_eq(name, "XLHO2") {
            Some(ResourceType::CatalyzedLemergiumAlkalide)
        }         else if str_eq(name, "XZH2O") {
            Some(ResourceType::CatalyzedZynthiumAcid)
        }         else if str_eq(name, "XZHO2") {
            Some(ResourceType::CatalyzedZynthiumAlkalide)
        }         else if str_eq(name, "XGH2O") {
            Some(ResourceType::CatalyzedGhodiumAcid)
        }         else if str_eq(name, "XGHO2") {
            Some(ResourceType::CatalyzedGhodiumAlkalide)
        }         else if str_eq(name, "ops") {
            Some(ResourceType::Ops)
        }         else if str_eq(name, "silicon") {
            Some(ResourceType::Silicon)
        }         else if str_eq(name, "metal") {
            Some(ResourceType::Metal)
        }         else if str_eq(name, "biomass") {
            Some(ResourceType::Biomass)
        }         else if str_eq(name, "mist") {
            Some(ResourceType::Mist)
        }         else if str_eq(name, "utrium_bar") {
            Some(ResourceType::UtriumBar)
        }         else if str_eq(name, "lemergium_bar") {
            Some(ResourceType::LemergiumBar)
        }         else if str_eq(name, "zynthium_bar") {
            Some(ResourceType::ZynthiumBar)
        }         else if str_eq(name, "keanium_bar") {
            Some(ResourceType::KeaniumBar)
        }         else if str_eq(name, "ghodium_melt") {
            Some(ResourceType::GhodiumMelt)
        }         else if str_eq(name, "oxidant") {
            Some(ResourceType::Oxidant)
        }         else if str_eq(name, "reductant") {
            Some(ResourceType::Reductant)
        }         else if str_eq(name, "purifier") {
            Some(ResourceType::Purifier)
        }         else if str_eq(name, "battery") {
            Some(ResourceType::Battery)
        }         else if str_eq(name, "composite") {
            Some(ResourceType::Composite)
        }         else if str_eq(name, "crystal") {
            Some(ResourceType::Crystal)
        }         else if str_eq(name, "liquid") {
            Some(ResourceType::Liquid)
        }         else if str_eq(name, "wire") {
            Some(ResourceType::Wire)
        }         else if str_eq(name, "switch") {
            Some(ResourceType::Switch)
        }         else if str_eq(name, "transistor") {
            Some(ResourceType::Transistor)
        }         else if str_eq(name, "microchip") {
            Some(ResourceType::Microchip)
        }         else if str_eq(name, "circuit") {
            Some(ResourceType::Circuit)
        }         else if str_eq(name, "device") {
            Some(ResourceType::Device)
        }         else if str_eq(name, "cell") {
            Some(ResourceType::Cell)
        }         else if str_eq(name, "phlegm") {
            Some(ResourceType::Phlegm)
        }         else if str_eq(name, "tissue") {
            Some(ResourceType::Tissue)
        }         else if str_eq(name, "muscle") {
            Some(ResourceType::Muscle)
        }         else if str_eq(name, "organoid") {
            Some(ResourceType::Organoid)
        }         else if str_eq(name, "organism") {
            Some(ResourceType::Organism)
        }         else if str_eq(name, "alloy") {
            Some(ResourceType::Alloy)
        }         else if str_eq(name, "tube") {
            Some(ResourceType::Tube)
        }         else if str_eq(name, "fixtures") {
            Some(ResourceType::Fixtures)
        }         else if str_eq(name, "frame") {
            Some(ResourceType::Frame)
        }         else if str_eq(name, "hydraulics") {
            Some(ResourceType::Hydraulics)
        }         else if str_eq(name, "machine") {
            Some(ResourceType::Machine)
        }         else if str_eq(name, "condensate") {
            Some(ResourceType::Condensate)
        }         else if str_eq(name, "concentrate") {
            Some(ResourceType::Concentrate)
        }         else if str_eq(name, "extract") {
            Some(ResourceType::Extract)
        }         else if str_eq(name, "spirit") {
            Some(ResourceType::Spirit)
        }         else if str_eq(name, "emanation") {
            Some(ResourceType::Emanation)
        }         else if str_eq(name, "essence") {
            Some(ResourceType::Essence)
        } else {
            None
        }
    }

    /// No two values share a name.
    pub proof fn lemma_name_injective(a: ResourceType, b: ResourceType)
        ensures
            a.spec_name() == b.spec_name() ==> a == b,
    {
        let (x, y) = (a.spec_name(), b.spec_name());
        reveal_strlit("energy");
        reveal_strlit("power");
        reveal_strlit("H");
        reveal_strlit("O");
        reveal_strlit("U");
        reveal_strlit("L");
        reveal_strlit("K");
        reveal_strlit("Z");
        reveal_strlit("X");
        reveal_strlit("G");
        reveal_strlit("OH");
        reveal_strlit("ZK");
        reveal_strlit("UL");
        reveal_strlit("UH");
        reveal_strlit("UO");
        reveal_strlit("KH");
        reveal_strlit("KO");
        reveal_strlit("LH");
        reveal_strlit("LO");
        reveal_strlit("ZH");
        reveal_strlit("ZO");
        reveal_strlit("GH");
        reveal_strlit("GO");
        reveal_strlit("UH2O");
        reveal_strlit("UHO2");
        reveal_strlit("KH2O");
        reveal_strlit("KHO2");
        reveal_strlit("LH2O");
        reveal_strlit("LHO2");
        reveal_strlit("ZH2O");
        reveal_strlit("ZHO2");
        reveal_strlit("GH2O");
        reveal_strlit("GHO2");
        reveal_strlit("XUH2O");
        reveal_strlit("XUHO2");
        reveal_strlit("XKH2O");
        reveal_strlit("XKHO2");
        reveal_strlit("XLH2O");
        reveal_strlit("XLHO2");
        reveal_strlit("XZH2O");
        reveal_strlit("XZHO2");
        reveal_strlit("XGH2O");
        reveal_strlit("XGHO2");
        reveal_strlit("ops");
        reveal_strlit("silicon");
        reveal_strlit("metal");
        reveal_strlit("biomass");
        reveal_strlit("mist");
        reveal_strlit("utrium_bar");
        reveal_strlit("lemergium_bar");
        reveal_strlit("zynthium_bar");
        reveal_strlit("keanium_bar");
        reveal_strlit("ghodium_melt");
        reveal_strlit("oxidant");
        reveal_strlit("reductant");
        reveal_strlit("purifier");
        reveal_strlit("battery");
        reveal_strlit("composite");
        reveal_strlit("crystal");
        reveal_strlit("liquid");
        reveal_strlit("wire");
        reveal_strlit("switch");
        reveal_strlit("transistor");
        reveal_strlit("microchip");
        reveal_strlit("circuit");
        reveal_strlit("device");
        reveal_strlit("cell");
        reveal_strlit("phlegm");
        reveal_strlit("tissue");
        reveal_strlit("muscle");
        reveal_strlit("organoid");
        reveal_strlit("organism");
        reveal_strlit("alloy");
        reveal_strlit("tube");
        reveal_strlit("fixtures");
        reveal_strlit("frame");
        reveal_strlit("hydraulics");
        reveal_strlit("machine");
        reveal_strlit("condensate");
        reveal_strlit("concentrate");
        reveal_strlit("extract");
        reveal_strlit("spirit");
        reveal_strlit("emanation");
        reveal_strlit("essence");
        assert(a != b ==> x.len() != y.len() || x[0] != y[0] || x[1] != y[1] || x[2] != y[2] || x[3] != y[3] || x[4] != y[4] || x[5] != y[5]);
    }

    /// The ticks that a lab needs to produce this compound; `None` for what
    /// no reaction produces.
    pub open spec fn spec_reaction_time(self) -> Option<u32> {
        match self {
            ResourceType::Hydroxide => Some(20),
            ResourceType::ZynthiumKeanite => Some(5),
            ResourceType::UtriumLemergite => Some(5),
            ResourceType::Ghodium => Some(5),
            ResourceType::UtriumHydride => Some(10),
            ResourceType::UtriumAcid => Some(5),
            ResourceType::CatalyzedUtriumAcid => Some(60),
            ResourceType::UtriumOxide => Some(10),
            ResourceType::UtriumAlkalide => Some(5),
            ResourceType::CatalyzedUtriumAlkalide => Some(60),
            ResourceType::KeaniumHydride => Some(10),
            ResourceType::KeaniumAcid => Some(5),
            ResourceType::CatalyzedKeaniumAcid => Some(60),
            ResourceType::KeaniumOxide => Some(10),
            ResourceType::KeaniumAlkalide => Some(5),
            ResourceType::CatalyzedKeaniumAlkalide => Some(60),
            ResourceType::LemergiumHydride => Some(15),
            ResourceType::LemergiumAcid => Some(10),
            ResourceType::CatalyzedLemergiumAcid => Some(65),
            ResourceType::LemergiumOxide => Some(10),
            ResourceType::LemergiumAlkalide => Some(5),
            ResourceType::CatalyzedLemergiumAlkalide => Some(60),
            ResourceType::ZynthiumHydride => Some(20),
            ResourceType::ZynthiumAcid => Some(40),
            ResourceType::CatalyzedZynthiumAcid => Some(160),
            ResourceType::ZynthiumOxide => Some(10),
            ResourceType::ZynthiumAlkalide => Some(5),
            ResourceType::CatalyzedZynthiumAlkalide => Some(60),
            ResourceType::GhodiumHydride => Some(10),
            ResourceType::GhodiumAcid => Some(15),
            ResourceType::CatalyzedGhodiumAcid => Some(80),
            ResourceType::GhodiumOxide => Some(10),
            ResourceType::GhodiumAlkalide => Some(30),
            ResourceType::CatalyzedGhodiumAlkalide => Some(150),
            _ => None,
        }
    }

    /// The ticks that a lab needs to produce this compound; `None` for what
    /// no reaction produces.
    pub fn reaction_time(self) -> (time: Option<u32>)
        ensures
            time == self.spec_reaction_time(),
    {
        let time: u32 = match self {
            ResourceType::Hydroxide => 20,
            ResourceType::ZynthiumKeanite => 5,
            ResourceType::UtriumLemergite => 5,
            ResourceType::Ghodium => 5,
            ResourceType::UtriumHydride => 10,
            ResourceType::UtriumAcid => 5,
            ResourceType::CatalyzedUtriumAcid => 60,
            ResourceType::UtriumOxide => 10,
            ResourceType::UtriumAlkalide => 5,
            ResourceType::CatalyzedUtriumAlkalide => 60,
            ResourceType::KeaniumHydride => 10,
            ResourceType::KeaniumAcid => 5,
            ResourceType::CatalyzedKeaniumAcid => 60,
            ResourceType::KeaniumOxide => 10,
            ResourceType::KeaniumAlkalide => 5,
            ResourceType::CatalyzedKeaniumAlkalide => 60,
            ResourceType::LemergiumHydride => 15,
            ResourceType::LemergiumAcid => 10,
            ResourceType::CatalyzedLemergiumAcid => 65,
            ResourceType::LemergiumOxide => 10,
            ResourceType::LemergiumAlkalide => 5,
            ResourceType::CatalyzedLemergiumAlkalide => 60,
            ResourceType::ZynthiumHydride => 20,
            ResourceType::ZynthiumAcid => 40,
            ResourceType::CatalyzedZynthiumAcid => 160,
            ResourceType::ZynthiumOxide => 10,
            ResourceType::ZynthiumAlkalide => 5,
            ResourceType::CatalyzedZynthiumAlkalide => 60,
            ResourceType::GhodiumHydride => 10,
            ResourceType::GhodiumAcid => 15,
            ResourceType::CatalyzedGhodiumAcid => 80,
            ResourceType::GhodiumOxide => 10,
            ResourceType::GhodiumAlkalide => 30,
            ResourceType::CatalyzedGhodiumAlkalide => 150,
            _ => return None,
        };
        Some(time)
    }
}

/// The classes of power creep.
#[derive(Clone, Copy, Debug, PartialEq, Eq, Hash, Structural)]
pub enum PowerCreepClass {
    /// `"operator"`
    Operator,
}

impl PowerCreepClass {
    /// The number that stands for this class.
    pub open spec fn spec_code(self) -> u8 {
        match self {
            PowerCreepClass::Operator => 1,
        }
    }

    /// The number that stands for this class.
    pub fn code(self) -> (code: u8)
        ensures
            code == self.spec_code(),
    {
        match self {
            PowerCreepClass::Operator => 1,
        }
    }

    /// The class that `code` stands for, if there is one.
    pub fn from_code(code: u8) -> (found: Option<PowerCreepClass>)
        ensures
            match found {
                Some(t) => t.spec_code() == code,
                None => forall|t: PowerCreepClass| t.spec_code() != code,
            },
    {
        match code {
            1 => Some(PowerCreepClass::Operator),
            _ => None,
        }
    }

    /// No two values share a number.
    pub proof fn lemma_code_injective(a: PowerCreepClass, b: PowerCreepClass)
        ensures
            a.spec_code() == b.spec_code() ==> a == b,
    {
    }

    /// The string that the game uses for this class.
    pub open spec fn spec_name(self) -> Seq<char> {
        match self {
            PowerCreepClass::Operator => "operator"@,
        }
    }

    /// The string that the game uses for this class.
    pub fn name(self) -> (name: &'static str)
        ensures
            name@ == self.spec_name(),
    {
        match self {
            PowerCreepClass::Operator => "operator",
        }
    }

    /// The class that the game calls `name`, if there is one.
    pub fn from_name(name: &str) -> (found: Option<PowerCreepClass>)
        ensures
            match found {
                Some(t) => t.spec_name() == name@,
                None => forall|t: PowerCreepClass| t.spec_name() != name@,
            },
    {
        if str_eq(name, "operator") {
            Some(PowerCreepClass::Operator)
        } else {
            None
        }
    }

    /// No two values share a name.
    pub proof fn lemma_name_injective(a: PowerCreepClass, b: PowerCreepClass)
        ensures
            a.spec_name() == b.spec_name() ==> a == b,
    {
    }
}

/// The powers that a power creep can use.
#[derive(Clone, Copy, Debug, PartialEq, Eq, Hash, Structural)]
pub enum PowerType {
    GenerateOps,
    OperateSpawn,
    OperateTower,
    OperateStorage,
    OperateLab,
    OperateExtension,
    OperateObserver,
    OperateTerminal,
    DisruptSpawn,
    DisruptTower,
    Shield,
    RegenSource,
    RegenMineral,
    DisruptTerminal,
    OperatePower,
    Fortify,
    OperateController,
    OperateFactory,
}

impl PowerType {
    /// The number that stands for this power.
    pub open spec fn spec_code(self) -> u8 {
        match self {
            PowerType::GenerateOps => 1,
            PowerType::OperateSpawn => 2,
            PowerType::OperateTower => 3,
            PowerType::OperateStorage => 4,
            PowerType::OperateLab => 5,
            PowerType::OperateExtension => 6,
            PowerType::OperateObserver => 7,
            PowerType::OperateTerminal => 8,
            PowerType::DisruptSpawn => 9,
            PowerType::DisruptTower => 10,
            PowerType::Shield => 12,
            PowerType::RegenSource => 13,
            PowerType::RegenMineral => 14,
            PowerType::DisruptTerminal => 15,
            PowerType::OperatePower => 16,
            PowerType::Fortify => 17,
            PowerType::OperateController => 18,
            PowerType::OperateFactory => 19,
        }
    }

    /// The number that stands for this power.
    pub fn code(self) -> (code: u8)
        ensures
            code == self.spec_code(),
    {
        match self {
            PowerType::GenerateOps => 1,
            PowerType::OperateSpawn => 2,
            PowerType::OperateTower => 3,
            PowerType::OperateStorage => 4,
            PowerType::OperateLab => 5,
            PowerType::OperateExtension => 6,
            PowerType::OperateObserver => 7,
            PowerType::OperateTerminal => 8,
            PowerType::DisruptSpawn => 9,
            PowerType::DisruptTower => 10,
            PowerType::Shield => 12,
            PowerType::RegenSource => 13,
            PowerType::RegenMineral => 14,
            PowerType::DisruptTerminal => 15,
            PowerType::OperatePower => 16,
            PowerType::Fortify => 17,
            PowerType::OperateController => 18,
            PowerType::OperateFactory => 19,
        }
    }

    /// The power that `code` stands for, if there is one.
    pub fn from_code(code: u8) -> (found: Option<PowerType>)
        ensures
            match found {
                Some(t) => t.spec_code() == code,
                None => forall|t: PowerType| t.spec_code() != code,
            },
    {
        match code {
            1 => Some(PowerType::GenerateOps),
            2 => Some(PowerType::OperateSpawn),
            3 => Some(PowerType::OperateTower),
            4 => Some(PowerType::OperateStorage),
            5 => Some(PowerType::OperateLab),
            6 => Some(PowerType::OperateExtension),
            7 => Some(PowerType::OperateObserver),
            8 => Some(PowerType::OperateTerminal),
            9 => Some(PowerType::DisruptSpawn),
            10 => Some(PowerType::DisruptTower),
            12 => Some(PowerType::Shield),
            13 => Some(PowerType::RegenSource),
            14 => Some(PowerType::RegenMineral),
            15 => Some(PowerType::DisruptTerminal),
            16 => Some(PowerType::OperatePower),
            17 => Some(PowerType::Fortify),
            18 => Some(PowerType::OperateController),
            19 => Some(PowerType::OperateFactory),
            _ => None,
        }
    }

    /// No two values share a number.
    pub proof fn lemma_code_injective(a: PowerType, b: PowerType)
        ensures
            a.spec_code() == b.spec_code() ==> a == b,
    {
    }
}

/// The effects that the world itself puts on an object.
#[derive(Clone, Copy, Debug, PartialEq, Eq, Hash, Structural)]
pub enum NaturalEffectType {
    Invulnerability,
    CollapseTimer,
}

impl NaturalEffectType {
    /// The number that stands for this effect.
    pub open spec fn spec_code(self) -> u16 {
        match self {
            NaturalEffectType::Invulnerability => 1001,
            NaturalEffectType::CollapseTimer => 1002,
        }
    }

    /// The number that stands for this effect.
    pub fn code(self) -> (code: u16)
        ensures
            code == self.spec_code(),
    {
        match self {
            NaturalEffectType::Invulnerability => 1001,
            NaturalEffectType::CollapseTimer => 1002,
        }
    }

    /// The effect that `code` stands for, if there is one.
    pub fn from_code(code: u16) -> (found: Option<NaturalEffectType>)
        ensures
            match found {
                Some(t) => t.spec_code() == code,
                None => forall|t: NaturalEffectType| t.spec_code() != code,
            },
    {
        match code {
            1001 => Some(NaturalEffectType::Invulnerability),
            1002 => Some(NaturalEffectType::CollapseTimer),
            _ => None,
        }
    }

    /// No two values share a number.
    pub proof fn lemma_code_injective(a: NaturalEffectType, b: NaturalEffectType)
        ensures
            a.spec_code() == b.spec_code() ==> a == b,
    {
    }
}

/// An effect on an object: a power that a creep used on it, or an effect of
/// the world itself.
#[derive(Clone, Copy, Debug, PartialEq, Eq, Hash, Structural)]
pub enum EffectType {
    PowerEffect(PowerType),
    NaturalEffect(NaturalEffectType),
}

impl EffectType {
    /// The number that stands for this effect: that of the power, or that
    /// of the natural effect.
    pub open spec fn spec_code(self) -> u16 {
        match self {
            EffectType::PowerEffect(power) => power.spec_code() as u16,
            EffectType::NaturalEffect(effect) => effect.spec_code(),
        }
    }

    /// The number that stands for this effect.
    pub fn code(self) -> (code: u16)
        ensures
            code == self.spec_code(),
    {
        match self {
            EffectType::PowerEffect(power) => power.code() as u16,
            EffectType::NaturalEffect(effect) => effect.code(),
        }
    }

    /// The effect that `code` stands for, if there is one: the numbers of
    /// the powers and those of the natural effects do not meet.
    pub fn from_code(code: u16) -> (found: Option<EffectType>)
        ensures
            match found {
                Some(t) => t.spec_code() == code,
                None => forall|t: EffectType| t.spec_code() != code,
            },
    {
        if code <= 255 {
            if let Some(power) = PowerType::from_code(code as u8) {
                return Some(EffectType::PowerEffect(power));
            }
        }
        match NaturalEffectType::from_code(code) {
            Some(effect) => Some(EffectType::NaturalEffect(effect)),
            None => {
                assert forall|t: EffectType| t.spec_code() != code by {
                    match t {
                        EffectType::PowerEffect(power) => {
                            assert(power.spec_code() != code);
                        },
                        EffectType::NaturalEffect(effect) => {
                            assert(effect.spec_code() != code);
                        },
                    }
                }
                None
            },
        }
    }

    /// No two effects share a number.
    pub proof fn lemma_code_injective(a: EffectType, b: EffectType)
        ensures
            a.spec_code() == b.spec_code() ==> a == b,
    {
        match (a, b) {
            (EffectType::PowerEffect(p), EffectType::PowerEffect(q)) => {
                PowerType::lemma_code_injective(p, q);
            },
            (EffectType::NaturalEffect(p), EffectType::NaturalEffect(q)) => {
                NaturalEffectType::lemma_code_injective(p, q);
            },
            _ => {},
        }
    }
}

} // verus!
