//! Reading the entries of a room's event log.
//!
//! The host keeps the log as text. Whoever has taken the text apart hands
//! each entry over as a [`RawEvent`]: the three members of the entry, with
//! the details of the event still as names and values. What an entry must
//! hold to be an [`Event`], and which event it then is, is decided here.

use crate::constants::small_enums::{AttackType, HealType};
use crate::objects::room::{
    AttackEvent, BuildEvent, Event, EventType, ExitEvent, HarvestEvent, HealEvent,
    ObjectDestroyedEvent, RepairEvent, ReserveControllerEvent, UpgradeControllerEvent,
};
use crate::text::str_eq;
use vstd::prelude::*;

verus! {

/// A value in the log, as far as an event can hold one: a text, a whole
/// number that is not negative, or anything else.
#[derive(Clone, Debug, PartialEq, Eq)]
pub enum RawValue {
    Text(String),
    Number(u64),
    Other,
}

/// A named value among the details of an entry.
#[derive(Clone, Debug, PartialEq, Eq)]
pub struct RawField {
    pub name: String,
    pub value: RawValue,
}

/// The details of an entry: named values in the order of the log, or
/// something that holds no named values at all.
#[derive(Clone, Debug, PartialEq, Eq)]
pub enum RawData {
    Fields(Vec<RawField>),
    Other,
}

/// An entry of the log as it was read: the number of the event, the object
/// that it happened to, and the details. Each may be missing.
#[derive(Clone, Debug, PartialEq, Eq)]
pub struct RawEvent {
    pub event: Option<i64>,
    pub object_id: Option<String>,
    pub data: Option<RawData>,
}

/// The kinds of event.
#[derive(Clone, Copy, Debug, PartialEq, Eq, Hash, Structural)]
pub enum EventKind {
    Attack,
    ObjectDestroyed,
    AttackController,
    Build,
    Harvest,
    Heal,
    Repair,
    ReserveController,
    UpgradeController,
    Exit,
}

/// The details that events have.
#[derive(Clone, Copy, Debug, PartialEq, Eq, Hash, Structural)]
pub enum Detail {
    TargetId,
    Damage,
    AttackType,
    ObjectType,
    Amount,
    EnergySpent,
    HealType,
    Room,
    X,
    Y,
}

/// Why an entry of the log is no event.
#[derive(Clone, Copy, Debug, PartialEq, Eq, Structural)]
pub enum EventError {
    /// The entry has no details, or no number to read them by.
    MissingData,
    /// The entry does not say which object it is about.
    MissingObjectId,
    /// No kind of event has this number.
    UnknownEvent { event: i64 },
    /// The details of the entry hold no named values, but the event has
    /// details.
    InvalidData,
    /// A detail of the event is given twice.
    Repeated(Detail),
    /// A detail of the event has a value that it cannot have.
    Invalid(Detail),
    /// A detail of the event is not given.
    Missing(Detail),
}

impl EventKind {
    /// The number of this kind of event in the log.
    pub open spec fn spec_code(self) -> i64 {
        match self {
            EventKind::Attack => 1,
            EventKind::ObjectDestroyed => 2,
            EventKind::AttackController => 3,
            EventKind::Build => 4,
            EventKind::Harvest => 5,
            EventKind::Heal => 6,
            EventKind::Repair => 7,
            EventKind::ReserveController => 8,
            EventKind::UpgradeController => 9,
            EventKind::Exit => 10,
        }
    }

    /// The kind of event with the number `code`, if there is one.
    pub open spec fn spec_from_code(code: i64) -> Option<EventKind> {
        if code == 1 {
            Some(EventKind::Attack)
        } else if code == 2 {
            Some(EventKind::ObjectDestroyed)
        } else if code == 3 {
            Some(EventKind::AttackController)
        } else if code == 4 {
            Some(EventKind::Build)
        } else if code == 5 {
            Some(EventKind::Harvest)
        } else if code == 6 {
            Some(EventKind::Heal)
        } else if code == 7 {
            Some(EventKind::Repair)
        } else if code == 8 {
            Some(EventKind::ReserveController)
        } else if code == 9 {
            Some(EventKind::UpgradeController)
        } else if code == 10 {
            Some(EventKind::Exit)
        } else {
            None
        }
    }

    /// The number of this kind of event in the log.
    pub fn code(self) -> (code: i64)
        ensures
            code == self.spec_code(),
    {
        match self {
            EventKind::Attack => 1,
            EventKind::ObjectDestroyed => 2,
            EventKind::AttackController => 3,
            EventKind::Build => 4,
            EventKind::Harvest => 5,
            EventKind::Heal => 6,
            EventKind::Repair => 7,
            EventKind::ReserveController => 8,
            EventKind::UpgradeController => 9,
            EventKind::Exit => 10,
        }
    }

    /// The kind of event with the number `code`, if there is one.
    pub fn from_code(code: i64) -> (found: Option<EventKind>)
        ensures
            found == Self::spec_from_code(code),
            match found {
                Some(kind) => kind.spec_code() == code,
                None => forall|kind: EventKind| kind.spec_code() != code,
            },
    {
        match code {
            1 => Some(EventKind::Attack),
            2 => Some(EventKind::ObjectDestroyed),
            3 => Some(EventKind::AttackController),
            4 => Some(EventKind::Build),
            5 => Some(EventKind::Harvest),
            6 => Some(EventKind::Heal),
            7 => Some(EventKind::Repair),
            8 => Some(EventKind::ReserveController),
            9 => Some(EventKind::UpgradeController),
            10 => Some(EventKind::Exit),
            _ => None,
        }
    }

    /// The details of an event of this kind, in the order in which a
    /// missing one is reported.
    pub open spec fn details(self) -> Seq<Detail> {
        match self {
            EventKind::Attack => seq![Detail::TargetId, Detail::Damage, Detail::AttackType],
            EventKind::ObjectDestroyed => seq![Detail::ObjectType],
            EventKind::AttackController => seq![],
            EventKind::Build => seq![Detail::TargetId, Detail::Amount, Detail::EnergySpent],
            EventKind::Harvest => seq![Detail::TargetId, Detail::Amount],
            EventKind::Heal => seq![Detail::TargetId, Detail::Amount, Detail::HealType],
            EventKind::Repair => seq![Detail::TargetId, Detail::Amount, Detail::EnergySpent],
            EventKind::ReserveController => seq![Detail::Amount],
            EventKind::UpgradeController => seq![Detail::Amount, Detail::EnergySpent],
            EventKind::Exit => seq![Detail::Room, Detail::X, Detail::Y],
        }
    }

    /// Whether an event of this kind has the detail.
    pub open spec fn has(self, detail: Detail) -> bool {
        self.details().contains(detail)
    }

    /// Whether an event of this kind has the detail.
    pub fn has_detail(self, detail: Detail) -> (has: bool)
        ensures
            has == self.has(detail),
    {
        let has = match self {
            EventKind::Attack => matches!(
                detail,
                Detail::TargetId | Detail::Damage | Detail::AttackType
            ),
            EventKind::ObjectDestroyed => matches!(detail, Detail::ObjectType),
            EventKind::AttackController => false,
            EventKind::Build | EventKind::Repair => matches!(
                detail,
                Detail::TargetId | Detail::Amount | Detail::EnergySpent
            ),
            EventKind::Harvest => matches!(detail, Detail::TargetId | Detail::Amount),
            EventKind::Heal => matches!(
                detail,
                Detail::TargetId | Detail::Amount | Detail::HealType
            ),
            EventKind::ReserveController => matches!(detail, Detail::Amount),
            EventKind::UpgradeController => matches!(detail, Detail::Amount | Detail::EnergySpent),
            EventKind::Exit => matches!(detail, Detail::Room | Detail::X | Detail::Y),
        };
        proof {
            let all = self.details();
            if has {
                assert(exists|i: int| 0 <= i < all.len() && all[i] == detail) by {
                    if all.len() > 0 && all[0] == detail {
                    } else if all.len() > 1 && all[1] == detail {
                    } else {
                        assert(all.len() > 2 && all[2] == detail);
                    }
                }
            } else {
                assert forall|i: int| 0 <= i < all.len() implies all[i] != detail by {}
            }
        }
        has
    }
}

impl Detail {
    /// The name of the detail in the log.
    pub open spec fn spec_name(self) -> Seq<char> {
        match self {
            Detail::TargetId => "targetId"@,
            Detail::Damage => "damage"@,
            Detail::AttackType => "attackType"@,
            Detail::ObjectType => "type"@,
            Detail::Amount => "amount"@,
            Detail::EnergySpent => "energySpent"@,
            Detail::HealType => "healType"@,
            Detail::Room => "room"@,
            Detail::X => "x"@,
            Detail::Y => "y"@,
        }
    }

    /// The name of the detail in the log.
    pub fn name(self) -> (name: &'static str)
        ensures
            name@ == self.spec_name(),
    {
        match self {
            Detail::TargetId => "targetId",
            Detail::Damage => "damage",
            Detail::AttackType => "attackType",
            Detail::ObjectType => "type",
            Detail::Amount => "amount",
            Detail::EnergySpent => "energySpent",
            Detail::HealType => "healType",
            Detail::Room => "room",
            Detail::X => "x",
            Detail::Y => "y",
        }
    }

    /// The detail that the log calls `name`, if there is one.
    pub fn from_name(name: &str) -> (found: Option<Detail>)
        ensures
            match found {
                Some(detail) => detail.spec_name() == name@,
                None => forall|detail: Detail| detail.spec_name() != name@,
            },
    {
        if str_eq(name, "targetId") {
            Some(Detail::TargetId)
        } else if str_eq(name, "damage") {
            Some(Detail::Damage)
        } else if str_eq(name, "attackType") {
            Some(Detail::AttackType)
        } else if str_eq(name, "type") {
            Some(Detail::ObjectType)
        } else if str_eq(name, "amount") {
            Some(Detail::Amount)
        } else if str_eq(name, "energySpent") {
            Some(Detail::EnergySpent)
        } else if str_eq(name, "healType") {
            Some(Detail::HealType)
        } else if str_eq(name, "room") {
            Some(Detail::Room)
        } else if str_eq(name, "x") {
            Some(Detail::X)
        } else if str_eq(name, "y") {
            Some(Detail::Y)
        } else {
            None
        }
    }

    /// No two details share a name.
    pub proof fn lemma_name_injective(a: Detail, b: Detail)
        ensures
            a.spec_name() == b.spec_name() ==> a == b,
    {
        let (x, y) = (a.spec_name(), b.spec_name());
        reveal_strlit("targetId");
        reveal_strlit("damage");
        reveal_strlit("attackType");
        reveal_strlit("type");
        reveal_strlit("amount");
        reveal_strlit("energySpent");
        reveal_strlit("healType");
        reveal_strlit("room");
        reveal_strlit("x");
        reveal_strlit("y");
        assert(a != b ==> x.len() != y.len() || x[0] != y[0]);
    }
}

/// The detail called `name` that an event of kind `kind` has, if it has one.
/// Names of other details, and names that are no detail at all, stand for
/// nothing.
pub open spec fn detail_named(kind: EventKind, name: Seq<char>) -> Option<Detail> {
    if exists|detail: Detail| kind.has(detail) && detail.spec_name() == name {
        Some(choose|detail: Detail| kind.has(detail) && detail.spec_name() == name)
    } else {
        None
    }
}

/// The detail called `name` that an event of kind `kind` has, if it has one.
pub fn find_detail(kind: EventKind, name: &str) -> (found: Option<Detail>)
    ensures
        found == detail_named(kind, name@),
{
    match Detail::from_name(name) {
        Some(detail) => {
            if kind.has_detail(detail) {
                proof {
                    let chosen = choose|d: Detail| kind.has(d) && d.spec_name() == name@;
                    Detail::lemma_name_injective(chosen, detail);
                }
                Some(detail)
            } else {
                proof {
                    assert forall|d: Detail| !(kind.has(d) && d.spec_name() == name@) by {
                        Detail::lemma_name_injective(d, detail);
                    }
                }
                None
            }
        },
        None => None,
    }
}

/// The details of an entry that have been read so far.
#[derive(Clone, Debug, PartialEq, Eq)]
pub struct Details {
    pub target_id: Option<String>,
    pub damage: Option<u32>,
    pub attack_type: Option<AttackType>,
    pub object_type: Option<String>,
    pub amount: Option<u32>,
    pub energy_spent: Option<u32>,
    pub heal_type: Option<HealType>,
    pub room: Option<String>,
    pub x: Option<u32>,
    pub y: Option<u32>,
}

/// The text that a value holds, if it is a text.
pub open spec fn text_of(value: RawValue) -> Option<String> {
    match value {
        RawValue::Text(text) => Some(text),
        _ => None,
    }
}

/// The number that a value holds, if it is a number of at most 32 bits.
pub open spec fn number_of(value: RawValue) -> Option<u32> {
    match value {
        RawValue::Number(n) => if n <= u32::MAX {
            Some(n as u32)
        } else {
            None
        },
        _ => None,
    }
}

/// The kind of attack that a value stands for, if it is the number of one.
pub open spec fn attack_of(value: RawValue) -> Option<AttackType> {
    match value {
        RawValue::Number(n) => AttackType::spec_from_code(n as int),
        _ => None,
    }
}

/// The kind of healing that a value stands for, if it is the number of one.
pub open spec fn heal_of(value: RawValue) -> Option<HealType> {
    match value {
        RawValue::Number(n) => HealType::spec_from_code(n as int),
        _ => None,
    }
}

impl Details {
    /// Nothing read yet.
    pub open spec fn nothing() -> Details {
        Details {
            target_id: None,
            damage: None,
            attack_type: None,
            object_type: None,
            amount: None,
            energy_spent: None,
            heal_type: None,
            room: None,
            x: None,
            y: None,
        }
    }

    /// Whether the detail has been read.
    pub open spec fn holds(self, detail: Detail) -> bool {
        match detail {
            Detail::TargetId => self.target_id is Some,
            Detail::Damage => self.damage is Some,
            Detail::AttackType => self.attack_type is Some,
            Detail::ObjectType => self.object_type is Some,
            Detail::Amount => self.amount is Some,
            Detail::EnergySpent => self.energy_spent is Some,
            Detail::HealType => self.heal_type is Some,
            Detail::Room => self.room is Some,
            Detail::X => self.x is Some,
            Detail::Y => self.y is Some,
        }
    }

    /// These details with `detail` read from `value`, if the detail can
    /// have that value: a text for a name or a kind of object, a number of
    /// at most 32 bits for an amount or a coordinate, the number of a kind
    /// of attack or of healing.
    pub open spec fn with(self, detail: Detail, value: RawValue) -> Option<Details> {
        match detail {
            Detail::TargetId => match text_of(value) {
                Some(text) => Some(Details { target_id: Some(text), ..self }),
                None => None,
            },
            Detail::Damage => match number_of(value) {
                Some(n) => Some(Details { damage: Some(n), ..self }),
                None => None,
            },
            Detail::AttackType => match attack_of(value) {
                Some(kind) => Some(Details { attack_type: Some(kind), ..self }),
                None => None,
            },
            Detail::ObjectType => match text_of(value) {
                Some(text) => Some(Details { object_type: Some(text), ..self }),
                None => None,
            },
            Detail::Amount => match number_of(value) {
                Some(n) => Some(Details { amount: Some(n), ..self }),
                None => None,
            },
            Detail::EnergySpent => match number_of(value) {
                Some(n) => Some(Details { energy_spent: Some(n), ..self }),
                None => None,
            },
            Detail::HealType => match heal_of(value) {
                Some(kind) => Some(Details { heal_type: Some(kind), ..self }),
                None => None,
            },
            Detail::Room => match text_of(value) {
                Some(text) => Some(Details { room: Some(text), ..self }),
                None => None,
            },
            Detail::X => match number_of(value) {
                Some(n) => Some(Details { x: Some(n), ..self }),
                None => None,
            },
            Detail::Y => match number_of(value) {
                Some(n) => Some(Details { y: Some(n), ..self }),
                None => None,
            },
        }
    }

    /// Nothing read yet.
    pub fn new() -> (read: Details)
        ensures
            read == Details::nothing(),
    {
        Details {
            target_id: None,
            damage: None,
            attack_type: None,
            object_type: None,
            amount: None,
            energy_spent: None,
            heal_type: None,
            room: None,
            x: None,
            y: None,
        }
    }

    /// Whether the detail has been read.
    pub fn has(&self, detail: Detail) -> (held: bool)
        ensures
            held == self.holds(detail),
    {
        match detail {
            Detail::TargetId => self.target_id.is_some(),
            Detail::Damage => self.damage.is_some(),
            Detail::AttackType => self.attack_type.is_some(),
            Detail::ObjectType => self.object_type.is_some(),
            Detail::Amount => self.amount.is_some(),
            Detail::EnergySpent => self.energy_spent.is_some(),
            Detail::HealType => self.heal_type.is_some(),
            Detail::Room => self.room.is_some(),
            Detail::X => self.x.is_some(),
            Detail::Y => self.y.is_some(),
        }
    }

    /// Reads `detail` from `value`, if the detail can have that value.
    pub fn take(self, detail: Detail, value: &RawValue) -> (next: Option<Details>)
        ensures
            next == self.with(detail, *value),
    {
        let mut read = self;
        match detail {
            Detail::TargetId => match read_text(value) {
                Some(text) => {
                    read.target_id = Some(text);
                },
                None => return None,
            },
            Detail::Damage => match read_number(value) {
                Some(n) => {
                    read.damage = Some(n);
                },
                None => return None,
            },
            Detail::AttackType => match value {
                RawValue::Number(n) => {
                    if *n > 6 {
                        return None;
                    }
                    match AttackType::from_code(*n as u32) {
                        Some(kind) => {
                            read.attack_type = Some(kind);
                        },
                        None => return None,
                    }
                },
                _ => return None,
            },
            Detail::ObjectType => match read_text(value) {
                Some(text) => {
                    read.object_type = Some(text);
                },
                None => return None,
            },
            Detail::Amount => match read_number(value) {
                Some(n) => {
                    read.amount = Some(n);
                },
                None => return None,
            },
            Detail::EnergySpent => match read_number(value) {
                Some(n) => {
                    read.energy_spent = Some(n);
                },
                None => return None,
            },
            Detail::HealType => match value {
                RawValue::Number(n) => {
                    if *n > 2 {
                        return None;
                    }
                    match HealType::from_code(*n as u32) {
                        Some(kind) => {
                            read.heal_type = Some(kind);
                        },
                        None => return None,
                    }
                },
                _ => return None,
            },
            Detail::Room => match read_text(value) {
                Some(text) => {
                    read.room = Some(text);
                },
                None => return None,
            },
            Detail::X => match read_number(value) {
                Some(n) => {
                    read.x = Some(n);
                },
                None => return None,
            },
            Detail::Y => match read_number(value) {
                Some(n) => {
                    read.y = Some(n);
                },
                None => return None,
            },
        }
        Some(read)
    }
}

fn read_text(value: &RawValue) -> (text: Option<String>)
    ensures
        text == text_of(*value),
{
    match value {
        RawValue::Text(text) => Some(text.clone()),
        _ => None,
    }
}

fn read_number(value: &RawValue) -> (number: Option<u32>)
    ensures
        number == number_of(*value),
{
    match value {
        RawValue::Number(n) => if *n <= 0xffff_ffff {
            Some(*n as u32)
        } else {
            None
        },
        _ => None,
    }
}

/// What reading the named values of an entry, first to last, gives for an
/// event of kind `kind`. A value whose name is no detail of such an event
/// is passed over. The first value that repeats a detail, or that its
/// detail cannot have, ends the reading.
pub open spec fn scan(kind: EventKind, fields: Seq<RawField>) -> Result<Details, EventError>
    decreases fields.len(),
{
    if fields.len() == 0 {
        Ok(Details::nothing())
    } else {
        match scan(kind, fields.drop_last()) {
            Err(e) => Err(e),
            Ok(read) => match detail_named(kind, fields.last().name@) {
                None => Ok(read),
                Some(detail) => if read.holds(detail) {
                    Err(EventError::Repeated(detail))
                } else {
                    match read.with(detail, fields.last().value) {
                        Some(next) => Ok(next),
                        None => Err(EventError::Invalid(detail)),
                    }
                },
            },
        }
    }
}

/// The first detail of an event of kind `kind` that has not been read.
pub open spec fn first_missing(kind: EventKind, read: Details) -> Option<Detail> {
    let all = kind.details();
    if all.len() > 0 && !read.holds(all[0]) {
        Some(all[0])
    } else if all.len() > 1 && !read.holds(all[1]) {
        Some(all[1])
    } else if all.len() > 2 && !read.holds(all[2]) {
        Some(all[2])
    } else {
        None
    }
}

/// The event of kind `kind` that the details make up, where none is
/// missing.
pub open spec fn made_of(kind: EventKind, read: Details) -> EventType {
    match kind {
        EventKind::Attack => EventType::Attack(
            AttackEvent {
                target_id: read.target_id->0,
                damage: read.damage->0,
                attack_type: read.attack_type->0,
            },
        ),
        EventKind::ObjectDestroyed => EventType::ObjectDestroyed(
            ObjectDestroyedEvent { object_type: read.object_type->0 },
        ),
        EventKind::AttackController => EventType::AttackController,
        EventKind::Build => EventType::Build(
            BuildEvent {
                target_id: read.target_id->0,
                amount: read.amount->0,
                energy_spent: read.energy_spent->0,
            },
        ),
        EventKind::Harvest => EventType::Harvest(
            HarvestEvent { target_id: read.target_id->0, amount: read.amount->0 },
        ),
        EventKind::Heal => EventType::Heal(
            HealEvent {
                target_id: read.target_id->0,
                amount: read.amount->0,
                heal_type: read.heal_type->0,
            },
        ),
        EventKind::Repair => EventType::Repair(
            RepairEvent {
                target_id: read.target_id->0,
                amount: read.amount->0,
                energy_spent: read.energy_spent->0,
            },
        ),
        EventKind::ReserveController => EventType::ReserveController(
            ReserveControllerEvent { amount: read.amount->0 },
        ),
        EventKind::UpgradeController => EventType::UpgradeController(
            UpgradeControllerEvent { amount: read.amount->0, energy_spent: read.energy_spent->0 },
        ),
        EventKind::Exit => EventType::Exit(
            ExitEvent { room: read.room->0, x: read.x->0, y: read.y->0 },
        ),
    }
}

/// What the details of an entry amount to for an event of kind `kind`.
/// An attack on a controller has no details and takes whatever is given.
/// Any other event needs named values, each of its details once among
/// them and with a value that it can have.
pub open spec fn payload(kind: EventKind, data: RawData) -> Result<EventType, EventError> {
    if kind == EventKind::AttackController {
        Ok(EventType::AttackController)
    } else {
        match data {
            RawData::Other => Err(EventError::InvalidData),
            RawData::Fields(fields) => match scan(kind, fields@) {
                Err(e) => Err(e),
                Ok(read) => match first_missing(kind, read) {
                    Some(detail) => Err(EventError::Missing(detail)),
                    None => Ok(made_of(kind, read)),
                },
            },
        }
    }
}

/// The event that an entry of the log holds. The number of the event
/// decides how the details are read; what is wrong with the details is
/// reported before a missing object.
pub open spec fn read_event(raw: RawEvent) -> Result<Event, EventError> {
    match (raw.event, raw.data) {
        (Some(code), Some(data)) => match EventKind::spec_from_code(code) {
            None => Err(EventError::UnknownEvent { event: code }),
            Some(kind) => match payload(kind, data) {
                Err(e) => Err(e),
                Ok(event) => match raw.object_id {
                    None => Err(EventError::MissingObjectId),
                    Some(object_id) => Ok(Event { event, object_id }),
                },
            },
        },
        _ => Err(EventError::MissingData),
    }
}

/// Reads the named values of an entry for an event of kind `kind`.
pub fn scan_fields(kind: EventKind, fields: &Vec<RawField>) -> (read: Result<Details, EventError>)
    ensures
        read == scan(kind, fields@),
{
    let mut read = Details::new();
    let mut idx: usize = 0;
    while idx < fields.len()
        invariant
            idx <= fields@.len(),
            scan(kind, fields@.take(idx as int)) == Ok::<Details, EventError>(read),
        decreases fields@.len() - idx,
    {
        proof {
            assert(fields@.take(idx + 1).drop_last() =~= fields@.take(idx as int));
            assert(fields@.take(idx + 1).last() == fields@[idx as int]);
            assert(fields@.take(fields@.len() as int) =~= fields@);
        }
        let ghost so_far = fields@.take(idx + 1);
        match find_detail(kind, fields[idx].name.as_str()) {
            None => {},
            Some(detail) => {
                if read.has(detail) {
                    proof {
                        lemma_scan_stays_failed(kind, fields@, idx + 1);
                    }
                    return Err(EventError::Repeated(detail));
                }
                match read.take(detail, &fields[idx].value) {
                    Some(next) => {
                        read = next;
                    },
                    None => {
                        proof {
                            lemma_scan_stays_failed(kind, fields@, idx + 1);
                        }
                        return Err(EventError::Invalid(detail));
                    },
                }
            },
        }
        idx += 1;
    }
    proof {
        assert(fields@.take(fields@.len() as int) =~= fields@);
    }
    Ok(read)
}

/// Once the reading of the first `n` values has ended with a fault, the
/// reading of all of them ends with the same fault.
pub proof fn lemma_scan_stays_failed(kind: EventKind, fields: Seq<RawField>, n: int)
    requires
        0 <= n <= fields.len(),
        scan(kind, fields.take(n)) is Err,
    ensures
        scan(kind, fields) == scan(kind, fields.take(n)),
    decreases fields.len() - n,
{
    if n < fields.len() {
        assert(fields.take(n + 1).drop_last() =~= fields.take(n));
        lemma_scan_stays_failed(kind, fields, n + 1);
    } else {
        assert(fields.take(n) =~= fields);
    }
}

impl Event {
    /// Reads an entry of the log.
    pub fn from_raw(raw: &RawEvent) -> (read: Result<Event, EventError>)
        ensures
            read == read_event(*raw),
    {
        let code = match raw.event {
            Some(code) => code,
            None => return Err(EventError::MissingData),
        };
        let data = match &raw.data {
            Some(data) => data,
            None => return Err(EventError::MissingData),
        };
        let kind = match EventKind::from_code(code) {
            Some(kind) => kind,
            None => return Err(EventError::UnknownEvent { event: code }),
        };
        let event = match read_payload(kind, data) {
            Ok(event) => event,
            Err(e) => return Err(e),
        };
        match &raw.object_id {
            Some(object_id) => Ok(Event { event, object_id: object_id.clone() }),
            None => Err(EventError::MissingObjectId),
        }
    }
}

/// Reads the details of an entry for an event of kind `kind`.
pub fn read_payload(kind: EventKind, data: &RawData) -> (read: Result<EventType, EventError>)
    ensures
        read == payload(kind, *data),
{
    if let EventKind::AttackController = kind {
        return Ok(EventType::AttackController);
    }
    let fields = match data {
        RawData::Fields(fields) => fields,
        RawData::Other => return Err(EventError::InvalidData),
    };
    let read = match scan_fields(kind, fields) {
        Ok(read) => read,
        Err(e) => return Err(e),
    };
    let Details {
        target_id,
        damage,
        attack_type,
        object_type,
        amount,
        energy_spent,
        heal_type,
        room,
        x,
        y,
    } = read;
    match kind {
        EventKind::Attack => {
            let target_id = match target_id {
                Some(v) => v,
                None => return Err(EventError::Missing(Detail::TargetId)),
            };
            let damage = match damage {
                Some(v) => v,
                None => return Err(EventError::Missing(Detail::Damage)),
            };
            let attack_type = match attack_type {
                Some(v) => v,
                None => return Err(EventError::Missing(Detail::AttackType)),
            };
            Ok(EventType::Attack(AttackEvent { target_id, damage, attack_type }))
        },
        EventKind::ObjectDestroyed => {
            let object_type = match object_type {
                Some(v) => v,
                None => return Err(EventError::Missing(Detail::ObjectType)),
            };
            Ok(EventType::ObjectDestroyed(ObjectDestroyedEvent { object_type }))
        },
        EventKind::AttackController => Ok(EventType::AttackController),
        EventKind::Build => {
            let target_id = match target_id {
                Some(v) => v,
                None => return Err(EventError::Missing(Detail::TargetId)),
            };
            let amount = match amount {
                Some(v) => v,
                None => return Err(EventError::Missing(Detail::Amount)),
            };
            let energy_spent = match energy_spent {
                Some(v) => v,
                None => return Err(EventError::Missing(Detail::EnergySpent)),
            };
            Ok(EventType::Build(BuildEvent { target_id, amount, energy_spent }))
        },
        EventKind::Harvest => {
            let target_id = match target_id {
                Some(v) => v,
                None => return Err(EventError::Missing(Detail::TargetId)),
            };
            let amount = match amount {
                Some(v) => v,
                None => return Err(EventError::Missing(Detail::Amount)),
            };
            Ok(EventType::Harvest(HarvestEvent { target_id, amount }))
        },
        EventKind::Heal => {
            let target_id = match target_id {
                Some(v) => v,
                None => return Err(EventError::Missing(Detail::TargetId)),
            };
            let amount = match amount {
                Some(v) => v,
                None => return Err(EventError::Missing(Detail::Amount)),
            };
            let heal_type = match heal_type {
                Some(v) => v,
                None => return Err(EventError::Missing(Detail::HealType)),
            };
            Ok(EventType::Heal(HealEvent { target_id, amount, heal_type }))
        },
        EventKind::Repair => {
            let target_id = match target_id {
                Some(v) => v,
                None => return Err(EventError::Missing(Detail::TargetId)),
            };
            let amount = match amount {
                Some(v) => v,
                None => return Err(EventError::Missing(Detail::Amount)),
            };
            let energy_spent = match energy_spent {
                Some(v) => v,
                None => return Err(EventError::Missing(Detail::EnergySpent)),
            };
            Ok(EventType::Repair(RepairEvent { target_id, amount, energy_spent }))
        },
        EventKind::ReserveController => {
            let amount = match amount {
                Some(v) => v,
                None => return Err(EventError::Missing(Detail::Amount)),
            };
            Ok(EventType::ReserveController(ReserveControllerEvent { amount }))
        },
        EventKind::UpgradeController => {
            let amount = match amount {
                Some(v) => v,
                None => return Err(EventError::Missing(Detail::Amount)),
            };
            let energy_spent = match energy_spent {
                Some(v) => v,
                None => return Err(EventError::Missing(Detail::EnergySpent)),
            };
            Ok(EventType::UpgradeController(UpgradeControllerEvent { amount, energy_spent }))
        },
        EventKind::Exit => {
            let room = match room {
                Some(v) => v,
                None => return Err(EventError::Missing(Detail::Room)),
            };
            let x = match x {
                Some(v) => v,
                None => return Err(EventError::Missing(Detail::X)),
            };
            let y = match y {
                Some(v) => v,
                None => return Err(EventError::Missing(Detail::Y)),
            };
            Ok(EventType::Exit(ExitEvent { room, x, y }))
        },
    }
}


/// Reading a detail adds that detail to what has been read, and no other.
pub proof fn lemma_with_holds(read: Details, detail: Detail, value: RawValue, other: Detail)
    requires
        read.with(detail, value) is Some,
    ensures
        read.with(detail, value)->0.holds(other) <==> read.holds(other) || other == detail,
{
}

/// The name of a detail that an event of kind `kind` has stands for that
/// detail.
pub proof fn lemma_detail_named(kind: EventKind, detail: Detail)
    requires
        kind.has(detail),
    ensures
        detail_named(kind, detail.spec_name()) == Some(detail),
{
    let chosen = choose|d: Detail| kind.has(d) && d.spec_name() == detail.spec_name();
    Detail::lemma_name_injective(chosen, detail);
}

/// Where the named values of an entry can be read, a detail has been read
/// exactly if the event has it and a value with its name is given.
pub proof fn lemma_scan_reads_named(kind: EventKind, fields: Seq<RawField>, detail: Detail)
    requires
        scan(kind, fields) is Ok,
    ensures
        scan(kind, fields)->Ok_0.holds(detail) <==> kind.has(detail) && exists|i: int|
            0 <= i < fields.len() && (#[trigger] fields[i]).name@ == detail.spec_name(),
    decreases fields.len(),
{
    if fields.len() > 0 {
        let earlier = fields.drop_last();
        let last = fields.last();
        lemma_scan_reads_named(kind, earlier, detail);
        let before = scan(kind, earlier)->Ok_0;
        let after = scan(kind, fields)->Ok_0;
        let named_earlier = exists|i: int|
            0 <= i < earlier.len() && (#[trigger] earlier[i]).name@ == detail.spec_name();
        let named = exists|i: int|
            0 <= i < fields.len() && (#[trigger] fields[i]).name@ == detail.spec_name();
        if named_earlier {
            let i = choose|i: int|
                0 <= i < earlier.len() && (#[trigger] earlier[i]).name@ == detail.spec_name();
            assert(fields[i] == earlier[i]);
        }
        if named && last.name@ != detail.spec_name() {
            let i = choose|i: int|
                0 <= i < fields.len() && (#[trigger] fields[i]).name@ == detail.spec_name();
            assert(earlier[i] == fields[i]);
        }
        if last.name@ == detail.spec_name() {
            assert(fields[fields.len() - 1].name@ == detail.spec_name());
        }
        match detail_named(kind, last.name@) {
            None => {
                if kind.has(detail) && last.name@ == detail.spec_name() {
                    lemma_detail_named(kind, detail);
                }
            },
            Some(found) => {
                lemma_with_holds(before, found, last.value, detail);
                if kind.has(detail) && last.name@ == detail.spec_name() {
                    lemma_detail_named(kind, detail);
                }
            },
        }
    }
}

/// Where the named values of an entry can be read, no detail of the event
/// is given twice.
pub proof fn lemma_scan_reads_once(kind: EventKind, fields: Seq<RawField>, i: int, j: int)
    requires
        scan(kind, fields) is Ok,
        0 <= i < j < fields.len(),
        detail_named(kind, fields[i].name@) is Some,
    ensures
        fields[i].name@ != fields[j].name@,
    decreases fields.len(),
{
    let earlier = fields.drop_last();
    let last = fields.last();
    if j < fields.len() - 1 {
        assert(earlier[i] == fields[i] && earlier[j] == fields[j]);
        lemma_scan_reads_once(kind, earlier, i, j);
    } else if fields[i].name@ == fields[j].name@ {
        let detail = detail_named(kind, last.name@)->0;
        assert(earlier[i] == fields[i]);
        lemma_scan_reads_named(kind, earlier, detail);
    }
}

/// A value whose name is no detail of the event changes nothing, wherever
/// among the named values it stands.
pub proof fn lemma_scan_passes_over(kind: EventKind, fields: Seq<RawField>, at: int, extra: RawField)
    requires
        0 <= at <= fields.len(),
        detail_named(kind, extra.name@) is None,
    ensures
        scan(kind, fields.insert(at, extra)) == scan(kind, fields),
    decreases fields.len() - at,
{
    let with_extra = fields.insert(at, extra);
    if at == fields.len() {
        assert(with_extra.drop_last() =~= fields);
        assert(with_extra.last() == extra);
    } else {
        assert(with_extra.drop_last() =~= fields.drop_last().insert(at, extra));
        assert(with_extra.last() == fields.last());
        lemma_scan_passes_over(kind, fields.drop_last(), at, extra);
    }
}

} // verus!
