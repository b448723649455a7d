//! Rooms: the requests that a guest makes of the room it stands in, and the
//! plain values that come back.

use crate::constants::small_enums::{
    AttackType, Color, Direction, Exit, HealType, ReturnCode, Terrain,
};
use crate::constants::types::StructureType;
use crate::local::room_position::Position;
use crate::text::str_eq;
use std::ops::Range;
use vstd::prelude::*;

verus! {

/// One step of a path through a room.
#[derive(Clone, Copy, Debug, PartialEq, Eq)]
pub struct Step {
    pub x: u32,
    pub y: u32,
    pub dx: i32,
    pub dy: i32,
    pub direction: Direction,
}

/// A path as the host hands it out: step by step, or packed into a string.
#[derive(Clone, Debug, PartialEq, Eq)]
pub enum Path {
    Vectorized(Vec<Step>),
    Serialized(String),
}

/// Something that happened in a room during the last tick.
#[derive(Clone, Debug, PartialEq, Eq)]
pub struct Event {
    pub event: EventType,
    pub object_id: String,
}

/// What happened, with the details that belong to it.
#[derive(Clone, Debug, PartialEq, Eq)]
pub enum EventType {
    Attack(AttackEvent),
    ObjectDestroyed(ObjectDestroyedEvent),
    AttackController,
    Build(BuildEvent),
    Harvest(HarvestEvent),
    Heal(HealEvent),
    Repair(RepairEvent),
    ReserveController(ReserveControllerEvent),
    UpgradeController(UpgradeControllerEvent),
    Exit(ExitEvent),
}

/// A creep or a structure attacked an object.
#[derive(Clone, Debug, PartialEq, Eq)]
pub struct AttackEvent {
    pub target_id: String,
    pub damage: u32,
    pub attack_type: AttackType,
}

/// An object was destroyed or killed.
#[derive(Clone, Debug, PartialEq, Eq)]
pub struct ObjectDestroyedEvent {
    pub object_type: String,
}

/// A creep built on a construction site.
#[derive(Clone, Debug, PartialEq, Eq)]
pub struct BuildEvent {
    pub target_id: String,
    pub amount: u32,
    pub energy_spent: u32,
}

/// A creep harvested from a source or a deposit.
#[derive(Clone, Debug, PartialEq, Eq)]
pub struct HarvestEvent {
    pub target_id: String,
    pub amount: u32,
}

/// A creep or a tower healed a creep.
#[derive(Clone, Debug, PartialEq, Eq)]
pub struct HealEvent {
    pub target_id: String,
    pub amount: u32,
    pub heal_type: HealType,
}

/// A creep or a tower repaired a structure.
#[derive(Clone, Debug, PartialEq, Eq)]
pub struct RepairEvent {
    pub target_id: String,
    pub amount: u32,
    pub energy_spent: u32,
}

/// A creep reserved a controller.
#[derive(Clone, Copy, Debug, PartialEq, Eq)]
pub struct ReserveControllerEvent {
    pub amount: u32,
}

/// A creep upgraded a controller.
#[derive(Clone, Copy, Debug, PartialEq, Eq)]
pub struct UpgradeControllerEvent {
    pub amount: u32,
    pub energy_spent: u32,
}

/// A creep left the room.
#[derive(Clone, Debug, PartialEq, Eq)]
pub struct ExitEvent {
    pub room: String,
    pub x: u32,
    pub y: u32,
}

/// The kinds of thing that can be looked for on a tile.
#[derive(Clone, Copy, Debug, PartialEq, Eq, Hash, Structural)]
pub enum Look {
    Creep,
    Energy,
    Resource,
    Source,
    Mineral,
    Structure,
    Flag,
    ConstructionSite,
    Nuke,
    Terrain,
    Tombstone,
}

impl Look {
    /// The name under which the host files what was found.
    pub open spec fn spec_name(self) -> Seq<char> {
        match self {
            Look::Creep => "creep"@,
            Look::Energy => "energy"@,
            Look::Resource => "resource"@,
            Look::Source => "source"@,
            Look::Mineral => "mineral"@,
            Look::Structure => "structure"@,
            Look::Flag => "flag"@,
            Look::ConstructionSite => "constructionSite"@,
            Look::Nuke => "nuke"@,
            Look::Terrain => "terrain"@,
            Look::Tombstone => "tombstone"@,
        }
    }

    /// The name under which the host files what was found.
    pub fn name(self) -> (name: &'static str)
        ensures
            name@ == self.spec_name(),
    {
        match self {
            Look::Creep => "creep",
            Look::Energy => "energy",
            Look::Resource => "resource",
            Look::Source => "source",
            Look::Mineral => "mineral",
            Look::Structure => "structure",
            Look::Flag => "flag",
            Look::ConstructionSite => "constructionSite",
            Look::Nuke => "nuke",
            Look::Terrain => "terrain",
            Look::Tombstone => "tombstone",
        }
    }

    /// The kind of thing that the host files under `name`, if there is one.
    pub fn from_name(name: &str) -> (found: Option<Look>)
        ensures
            match found {
                Some(look) => look.spec_name() == name@,
                None => forall|look: Look| look.spec_name() != name@,
            },
    {
        if str_eq(name, "creep") {
            Some(Look::Creep)
        }         else if str_eq(name, "energy") {
            Some(Look::Energy)
        }         else if str_eq(name, "resource") {
            Some(Look::Resource)
        }         else if str_eq(name, "source") {
            Some(Look::Source)
        }         else if str_eq(name, "mineral") {
            Some(Look::Mineral)
        }         else if str_eq(name, "structure") {
            Some(Look::Structure)
        }         else if str_eq(name, "flag") {
            Some(Look::Flag)
        }         else if str_eq(name, "constructionSite") {
            Some(Look::ConstructionSite)
        }         else if str_eq(name, "nuke") {
            Some(Look::Nuke)
        }         else if str_eq(name, "terrain") {
            Some(Look::Terrain)
        }         else if str_eq(name, "tombstone") {
            Some(Look::Tombstone)
        } else {
            None
        }
    }

    /// No two kinds share a name.
    pub proof fn lemma_name_injective(a: Look, b: Look)
        ensures
            a.spec_name() == b.spec_name() ==> a == b,
    {
        let (x, y) = (a.spec_name(), b.spec_name());
        reveal_strlit("creep");
        reveal_strlit("energy");
        reveal_strlit("resource");
        reveal_strlit("source");
        reveal_strlit("mineral");
        reveal_strlit("structure");
        reveal_strlit("flag");
        reveal_strlit("constructionSite");
        reveal_strlit("nuke");
        reveal_strlit("terrain");
        reveal_strlit("tombstone");
        assert(a != b ==> x.len() != y.len() || x[0] != y[0]);
    }
}

/// Something that was found on a tile: an object of the game, under the
/// handle `H` by which the caller knows it, or the ground of the tile.
#[derive(Clone, Debug, PartialEq, Eq)]
pub enum LookResult<H> {
    Creep(H),
    Energy(H),
    Resource(H),
    Source(H),
    Mineral(H),
    Structure(H),
    Flag(H),
    ConstructionSite(H),
    Nuke(H),
    Terrain(Terrain),
    Tombstone(H),
}

/// Something that was found in an area, with the tile on which it was found.
#[derive(Clone, Debug, PartialEq, Eq)]
pub struct PositionedLookResult<H> {
    pub x: u32,
    pub y: u32,
    pub look_result: LookResult<H>,
}

impl<H> LookResult<H> {
    /// The kind of thing that was found.
    pub open spec fn spec_look(self) -> Look {
        match self {
            LookResult::Creep(_) => Look::Creep,
            LookResult::Energy(_) => Look::Energy,
            LookResult::Resource(_) => Look::Resource,
            LookResult::Source(_) => Look::Source,
            LookResult::Mineral(_) => Look::Mineral,
            LookResult::Structure(_) => Look::Structure,
            LookResult::Flag(_) => Look::Flag,
            LookResult::ConstructionSite(_) => Look::ConstructionSite,
            LookResult::Nuke(_) => Look::Nuke,
            LookResult::Terrain(_) => Look::Terrain,
            LookResult::Tombstone(_) => Look::Tombstone,
        }
    }

    /// The object that was found, if an object was found.
    pub open spec fn spec_object(self) -> Option<H> {
        match self {
            LookResult::Creep(object) => Some(object),
            LookResult::Energy(object) => Some(object),
            LookResult::Resource(object) => Some(object),
            LookResult::Source(object) => Some(object),
            LookResult::Mineral(object) => Some(object),
            LookResult::Structure(object) => Some(object),
            LookResult::Flag(object) => Some(object),
            LookResult::ConstructionSite(object) => Some(object),
            LookResult::Nuke(object) => Some(object),
            LookResult::Tombstone(object) => Some(object),
            LookResult::Terrain(_) => None,
        }
    }

    /// The kind of thing that was found.
    pub fn look(&self) -> (look: Look)
        ensures
            look == self.spec_look(),
    {
        match self {
            LookResult::Creep(_) => Look::Creep,
            LookResult::Energy(_) => Look::Energy,
            LookResult::Resource(_) => Look::Resource,
            LookResult::Source(_) => Look::Source,
            LookResult::Mineral(_) => Look::Mineral,
            LookResult::Structure(_) => Look::Structure,
            LookResult::Flag(_) => Look::Flag,
            LookResult::ConstructionSite(_) => Look::ConstructionSite,
            LookResult::Nuke(_) => Look::Nuke,
            LookResult::Terrain(_) => Look::Terrain,
            LookResult::Tombstone(_) => Look::Tombstone,
        }
    }

    /// The object `object`, found as a thing of kind `look`. The ground is
    /// no object: nothing can be found as ground in this way.
    pub fn of_object(look: Look, object: H) -> (found: Option<LookResult<H>>)
        ensures
            look == Look::Terrain <==> found is None,
            found matches Some(result) ==> result.spec_look() == look && result.spec_object()
                == Some(object),
    {
        match look {
            Look::Creep => Some(LookResult::Creep(object)),
            Look::Energy => Some(LookResult::Energy(object)),
            Look::Resource => Some(LookResult::Resource(object)),
            Look::Source => Some(LookResult::Source(object)),
            Look::Mineral => Some(LookResult::Mineral(object)),
            Look::Structure => Some(LookResult::Structure(object)),
            Look::Flag => Some(LookResult::Flag(object)),
            Look::ConstructionSite => Some(LookResult::ConstructionSite(object)),
            Look::Nuke => Some(LookResult::Nuke(object)),
            Look::Tombstone => Some(LookResult::Tombstone(object)),
            Look::Terrain => None,
        }
    }

    /// The ground `terrain`, found as the ground of a tile.
    pub fn of_terrain(terrain: Terrain) -> (found: LookResult<H>)
        ensures
            found == LookResult::<H>::Terrain(terrain),
    {
        LookResult::Terrain(terrain)
    }
}

/// A rectangle of tiles: rows `top..bottom` and columns `left..right`, the
/// upper bounds not included.
#[derive(Clone, Copy, Debug, PartialEq, Eq, Structural)]
pub struct Area {
    pub top: u32,
    pub left: u32,
    pub bottom: u32,
    pub right: u32,
}

/// What a guest can ask of a room. Performing the request is the host's
/// part; the names of the variants are those of the host's methods.
#[derive(Clone, Debug, PartialEq, Eq)]
pub enum RoomCall {
    SerializePath { path: Vec<Step> },
    DeserializePath { path: String },
    CreateConstructionSite { x: u32, y: u32, structure_type: u32, name: Option<String> },
    CreateFlag { x: u32, y: u32, name: String, main_color: u32, secondary_color: u32 },
    Find { find_code: i32 },
    FindExitTo { room: String },
    GetEventLog { raw: bool },
    GetPositionAt { x: u32, y: u32 },
    GetTerrain,
    LookAt { x: u32, y: u32 },
    LookAtArea { area: Area, as_array: bool },
    LookForAt { look: Look, x: u32, y: u32 },
    LookForAtArea { look: Look, area: Area, as_array: bool },
}

/// A request together with the name of the room that it is made of.
#[derive(Clone, Debug, PartialEq, Eq)]
pub struct RoomRequest {
    pub room: String,
    pub call: RoomCall,
}

/// A room, known by its name.
#[derive(Clone, Debug)]
pub struct Room {
    name: String,
}

impl View for Room {
    type V = Seq<char>;

    /// A room is its name.
    closed spec fn view(&self) -> Seq<char> {
        self.name@
    }
}

impl PartialEq for Room {
    /// Two rooms are the same room where they have the same name.
    fn eq(&self, other: &Room) -> (same: bool) {
        str_eq(self.name.as_str(), other.name.as_str())
    }
}

impl vstd::std_specs::cmp::PartialEqSpecImpl for Room {
    open spec fn obeys_eq_spec() -> bool {
        true
    }

    open spec fn eq_spec(&self, other: &Room) -> bool {
        self@ == other@
    }
}

impl Eq for Room {

}

impl Room {
    /// The room called `name`.
    pub fn new(name: String) -> (room: Room)
        ensures
            room@ == name@,
    {
        Room { name }
    }

    /// The name of the room.
    pub fn name(&self) -> (name: &str)
        ensures
            name@ == self@,
    {
        self.name.as_str()
    }

    /// Whether `made` is the request `call` of this room.
    pub open spec fn asks(&self, made: RoomRequest, call: RoomCall) -> bool {
        made.room@ == self@ && made.call == call
    }

    fn request(&self, call: RoomCall) -> (made: RoomRequest)
        ensures
            self.asks(made, call),
    {
        RoomRequest { room: self.name.clone(), call }
    }

    /// Asks for `path` packed into a string.
    pub fn serialize_path(&self, path: &[Step]) -> (made: RoomRequest)
        ensures
            made.room@ == self@,
            made.call matches RoomCall::SerializePath { path: sent } && sent@ == path@,
    {
        let mut sent: Vec<Step> = Vec::with_capacity(path.len());
        let mut idx: usize = 0;
        while idx < path.len()
            invariant
                idx <= path@.len(),
                sent@ == path@.take(idx as int),
            decreases path@.len() - idx,
        {
            sent.push(path[idx]);
            assert(sent@ =~= path@.take(idx + 1));
            idx += 1;
        }
        assert(path@.take(path@.len() as int) =~= path@);
        self.request(RoomCall::SerializePath { path: sent })
    }

    /// Asks for the steps that are packed into `path`.
    pub fn deserialize_path(&self, path: &str) -> (made: RoomRequest)
        ensures
            made.room@ == self@,
            made.call matches RoomCall::DeserializePath { path: sent } && sent@ == path@,
    {
        self.request(RoomCall::DeserializePath { path: path.to_owned() })
    }

    /// Asks for a construction site of kind `ty` at `at`.
    pub fn create_construction_site(&self, at: Position, ty: StructureType) -> (made: RoomRequest)
        ensures
            self.asks(
                made,
                RoomCall::CreateConstructionSite {
                    x: at@.0 as u32,
                    y: at@.1 as u32,
                    structure_type: ty.spec_code() as u32,
                    name: None,
                },
            ),
    {
        self.request(
            RoomCall::CreateConstructionSite {
                x: at.x(),
                y: at.y(),
                structure_type: ty.code() as u32,
                name: None,
            },
        )
    }

    /// Asks for a construction site of kind `ty` at `at`, under a name of
    /// its own.
    pub fn create_named_construction_site(
        &self,
        at: Position,
        ty: StructureType,
        name: &str,
    ) -> (made: RoomRequest)
        ensures
            made.room@ == self@,
            made.call matches RoomCall::CreateConstructionSite {
                x,
                y,
                structure_type,
                name: Some(sent),
            } && x == at@.0 && y == at@.1 && structure_type == ty.spec_code() && sent@ == name@,
    {
        self.request(
            RoomCall::CreateConstructionSite {
                x: at.x(),
                y: at.y(),
                structure_type: ty.code() as u32,
                name: Some(name.to_owned()),
            },
        )
    }

    /// Asks for a flag called `name` at `at`, in two colors.
    pub fn create_flag(
        &self,
        at: Position,
        name: &str,
        main_color: Color,
        secondary_color: Color,
    ) -> (made: RoomRequest)
        ensures
            made.room@ == self@,
            made.call matches RoomCall::CreateFlag { x, y, name: sent, main_color: main, secondary_color: secondary }
                && x == at@.0 && y == at@.1 && sent@ == name@ && main == main_color.spec_code()
                && secondary == secondary_color.spec_code(),
    {
        self.request(
            RoomCall::CreateFlag {
                x: at.x(),
                y: at.y(),
                name: name.to_owned(),
                main_color: main_color.code(),
                secondary_color: secondary_color.code(),
            },
        )
    }

    /// Asks for everything of the kind that `find_code` stands for.
    pub fn find(&self, find_code: i32) -> (made: RoomRequest)
        ensures
            self.asks(made, RoomCall::Find { find_code }),
    {
        self.request(RoomCall::Find { find_code })
    }

    /// Asks on which side this room is left towards `room`.
    pub fn find_exit_to(&self, room: &Room) -> (made: RoomRequest)
        ensures
            made.room@ == self@,
            made.call matches RoomCall::FindExitTo { room: sent } && sent@ == room@,
    {
        self.request(RoomCall::FindExitTo { room: room.name.clone() })
    }

    /// Asks for the events of the last tick, as the text in which the host
    /// keeps them.
    pub fn get_event_log_raw(&self) -> (made: RoomRequest)
        ensures
            self.asks(made, RoomCall::GetEventLog { raw: true }),
    {
        self.request(RoomCall::GetEventLog { raw: true })
    }

    /// Asks for the position of tile `(x, y)`.
    pub fn get_position_at(&self, x: u32, y: u32) -> (made: RoomRequest)
        ensures
            self.asks(made, RoomCall::GetPositionAt { x, y }),
    {
        self.request(RoomCall::GetPositionAt { x, y })
    }

    /// Asks for the ground of the room.
    pub fn get_terrain(&self) -> (made: RoomRequest)
        ensures
            self.asks(made, RoomCall::GetTerrain),
    {
        self.request(RoomCall::GetTerrain)
    }

    /// Asks for everything on the tile at `target`.
    pub fn look_at(&self, target: &Position) -> (made: RoomRequest)
        ensures
            self.asks(made, RoomCall::LookAt { x: target@.0 as u32, y: target@.1 as u32 }),
    {
        self.request(RoomCall::LookAt { x: target.x(), y: target.y() })
    }

    /// Asks for everything on tile `(x, y)`.
    pub fn look_at_xy(&self, x: u32, y: u32) -> (made: RoomRequest)
        ensures
            self.asks(made, RoomCall::LookAt { x, y }),
    {
        self.request(RoomCall::LookAt { x, y })
    }

    /// Asks for everything in a rectangle, as one list.
    pub fn look_at_area(&self, top: u32, left: u32, bottom: u32, right: u32) -> (made: RoomRequest)
        ensures
            self.asks(
                made,
                RoomCall::LookAtArea { area: Area { top, left, bottom, right }, as_array: true },
            ),
    {
        self.request(
            RoomCall::LookAtArea { area: Area { top, left, bottom, right }, as_array: true },
        )
    }

    /// Asks for the things of kind `ty` on the tile at `target`.
    pub fn look_for_at(&self, ty: Look, target: Position) -> (made: RoomRequest)
        ensures
            self.asks(
                made,
                RoomCall::LookForAt { look: ty, x: target@.0 as u32, y: target@.1 as u32 },
            ),
    {
        self.request(RoomCall::LookForAt { look: ty, x: target.x(), y: target.y() })
    }

    /// Asks for the things of kind `ty` on tile `(x, y)`.
    pub fn look_for_at_xy(&self, ty: Look, x: u32, y: u32) -> (made: RoomRequest)
        ensures
            self.asks(made, RoomCall::LookForAt { look: ty, x, y }),
    {
        self.request(RoomCall::LookForAt { look: ty, x, y })
    }

    /// Asks for the things of kind `ty` in the columns `horiz` and the rows
    /// `vert`, as one list. Neither range may run backwards or past the
    /// edge of the room.
    pub fn look_for_at_area(&self, ty: Look, horiz: Range<u8>, vert: Range<u8>) -> (made:
        RoomRequest)
        requires
            horiz.start <= horiz.end <= 50,
            vert.start <= vert.end <= 50,
        ensures
            self.asks(
                made,
                RoomCall::LookForAtArea {
                    look: ty,
                    area: Area {
                        top: vert.start as u32,
                        left: horiz.start as u32,
                        bottom: vert.end as u32,
                        right: horiz.end as u32,
                    },
                    as_array: true,
                },
            ),
    {
        self.request(
            RoomCall::LookForAtArea {
                look: ty,
                area: Area {
                    top: vert.start as u32,
                    left: horiz.start as u32,
                    bottom: vert.end as u32,
                    right: horiz.end as u32,
                },
                as_array: true,
            },
        )
    }

    /// Reads the host's answer to `find_exit_to`: a side of the room, or
    /// the reason why there is none. A number that is neither is no answer.
    pub fn read_exit(code: i32) -> (read: Option<Result<Exit, ReturnCode>>)
        ensures
            match read {
                Some(Ok(exit)) => code >= 0 && exit.spec_code() == code,
                Some(Err(reason)) => code < 0 && reason.spec_code() == code,
                None => (forall|exit: Exit| exit.spec_code() != code) && (code < 0
                    ==> forall|reason: ReturnCode| reason.spec_code() != code),
            },
    {
        if code < 0 {
            match ReturnCode::from_code(code) {
                Some(reason) => Some(Err(reason)),
                None => None,
            }
        } else {
            match Exit::from_code(code as u32) {
                Some(exit) => Some(Ok(exit)),
                None => None,
            }
        }
    }
}

} // verus!
