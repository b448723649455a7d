//! Small enumerations of the game, each with the number under which the
//! host knows it.

use vstd::prelude::*;

verus! {

/// What the host answers to a request for an action.
#[derive(Clone, Copy, Debug, PartialEq, Eq, Hash, Structural)]
pub enum ReturnCode {
    /// The action was scheduled.
    Okay,
    NotOwner,
    NoPath,
    NameExists,
    Busy,
    NotFound,
    NotEnough,
    InvalidTarget,
    Full,
    NotInRange,
    InvalidArgs,
    Tired,
    NoBodypart,
    RclNotEnough,
    GclNotEnough,
}

impl ReturnCode {
    /// The number that stands for this answer.
    pub open spec fn spec_code(self) -> int {
        match self {
            ReturnCode::Okay => 0,
            ReturnCode::NotOwner => -1,
            ReturnCode::NoPath => -2,
            ReturnCode::NameExists => -3,
            ReturnCode::Busy => -4,
            ReturnCode::NotFound => -5,
            ReturnCode::NotEnough => -6,
            ReturnCode::InvalidTarget => -7,
            ReturnCode::Full => -8,
            ReturnCode::NotInRange => -9,
            ReturnCode::InvalidArgs => -10,
            ReturnCode::Tired => -11,
            ReturnCode::NoBodypart => -12,
            ReturnCode::RclNotEnough => -14,
            ReturnCode::GclNotEnough => -15,
        }
    }

    /// The number that stands for this answer.
    pub fn code(self) -> (code: i32)
        ensures
            code == self.spec_code(),
    {
        match self {
            ReturnCode::Okay => 0,
            ReturnCode::NotOwner => -1,
            ReturnCode::NoPath => -2,
            ReturnCode::NameExists => -3,
            ReturnCode::Busy => -4,
            ReturnCode::NotFound => -5,
            ReturnCode::NotEnough => -6,
            ReturnCode::InvalidTarget => -7,
            ReturnCode::Full => -8,
            ReturnCode::NotInRange => -9,
            ReturnCode::InvalidArgs => -10,
            ReturnCode::Tired => -11,
            ReturnCode::NoBodypart => -12,
            ReturnCode::RclNotEnough => -14,
            ReturnCode::GclNotEnough => -15,
        }
    }

    /// The answer that `code` stands for, if there is one.
    pub open spec fn spec_from_code(code: int) -> Option<ReturnCode> {
        if code == 0 {
            Some(ReturnCode::Okay)
        }         else if code == -1 {
            Some(ReturnCode::NotOwner)
        }         else if code == -2 {
            Some(ReturnCode::NoPath)
        }         else if code == -3 {
            Some(ReturnCode::NameExists)
        }         else if code == -4 {
            Some(ReturnCode::Busy)
        }         else if code == -5 {
            Some(ReturnCode::NotFound)
        }         else if code == -6 {
            Some(ReturnCode::NotEnough)
        }         else if code == -7 {
            Some(ReturnCode::InvalidTarget)
        }         else if code == -8 {
            Some(ReturnCode::Full)
        }         else if code == -9 {
            Some(ReturnCode::NotInRange)
        }         else if code == -10 {
            Some(ReturnCode::InvalidArgs)
        }         else if code == -11 {
            Some(ReturnCode::Tired)
        }         else if code == -12 {
            Some(ReturnCode::NoBodypart)
        }         else if code == -14 {
            Some(ReturnCode::RclNotEnough)
        }         else if code == -15 {
            Some(ReturnCode::GclNotEnough)
        } else {
            None
        }
    }

    /// The answer that `code` stands for, if there is one.
    pub fn from_code(code: i32) -> (found: Option<ReturnCode>)
        ensures
            found == Self::spec_from_code(code as int),
            match found {
                Some(t) => t.spec_code() == code,
                None => forall|t: ReturnCode| t.spec_code() != code,
            },
    {
        match code {
            0 => Some(ReturnCode::Okay),
            -1 => Some(ReturnCode::NotOwner),
            -2 => Some(ReturnCode::NoPath),
            -3 => Some(ReturnCode::NameExists),
            -4 => Some(ReturnCode::Busy),
            -5 => Some(ReturnCode::NotFound),
            -6 => Some(ReturnCode::NotEnough),
            -7 => Some(ReturnCode::InvalidTarget),
            -8 => Some(ReturnCode::Full),
            -9 => Some(ReturnCode::NotInRange),
            -10 => Some(ReturnCode::InvalidArgs),
            -11 => Some(ReturnCode::Tired),
            -12 => Some(ReturnCode::NoBodypart),
            -14 => Some(ReturnCode::RclNotEnough),
            -15 => Some(ReturnCode::GclNotEnough),
            _ => None,
        }
    }

    /// No two values share a number.
    pub proof fn lemma_code_injective(a: ReturnCode, b: ReturnCode)
        ensures
            a.spec_code() == b.spec_code() ==> a == b,
    {
    }
}

/// The eight directions in which a creep can step.
#[derive(Clone, Copy, Debug, PartialEq, Eq, Hash, Structural)]
pub enum Direction {
    Top,
    TopRight,
    Right,
    BottomRight,
    Bottom,
    BottomLeft,
    Left,
    TopLeft,
}

impl Direction {
    /// The number that stands for this direction.
    pub open spec fn spec_code(self) -> u32 {
        match self {
            Direction::Top => 1,
            Direction::TopRight => 2,
            Direction::Right => 3,
            Direction::BottomRight => 4,
            Direction::Bottom => 5,
            Direction::BottomLeft => 6,
            Direction::Left => 7,
            Direction::TopLeft => 8,
        }
    }

    /// The number that stands for this direction.
    pub fn code(self) -> (code: u32)
        ensures
            code == self.spec_code(),
    {
        match self {
            Direction::Top => 1,
            Direction::TopRight => 2,
            Direction::Right => 3,
            Direction::BottomRight => 4,
            Direction::Bottom => 5,
            Direction::BottomLeft => 6,
            Direction::Left => 7,
            Direction::TopLeft => 8,
        }
    }

    /// The direction that `code` stands for, if there is one.
    pub open spec fn spec_from_code(code: int) -> Option<Direction> {
        if code == 1 {
            Some(Direction::Top)
        }         else if code == 2 {
            Some(Direction::TopRight)
        }         else if code == 3 {
            Some(Direction::Right)
        }         else if code == 4 {
            Some(Direction::BottomRight)
        }         else if code == 5 {
            Some(Direction::Bottom)
        }         else if code == 6 {
            Some(Direction::BottomLeft)
        }         else if code == 7 {
            Some(Direction::Left)
        }         else if code == 8 {
            Some(Direction::TopLeft)
        } else {
            None
        }
    }

    /// The direction that `code` stands for, if there is one.
    pub fn from_code(code: u32) -> (found: Option<Direction>)
        ensures
            found == Self::spec_from_code(code as int),
            match found {
                Some(t) => t.spec_code() == code,
                None => forall|t: Direction| t.spec_code() != code,
            },
    {
        match code {
            1 => Some(Direction::Top),
            2 => Some(Direction::TopRight),
            3 => Some(Direction::Right),
            4 => Some(Direction::BottomRight),
            5 => Some(Direction::Bottom),
            6 => Some(Direction::BottomLeft),
            7 => Some(Direction::Left),
            8 => Some(Direction::TopLeft),
            _ => None,
        }
    }

    /// No two values share a number.
    pub proof fn lemma_code_injective(a: Direction, b: Direction)
        ensures
            a.spec_code() == b.spec_code() ==> a == b,
    {
    }
}

/// The four sides on which a room can be left.
#[derive(Clone, Copy, Debug, PartialEq, Eq, Hash, Structural)]
pub enum Exit {
    Top,
    Right,
    Bottom,
    Left,
}

impl Exit {
    /// The number that stands for this side.
    pub open spec fn spec_code(self) -> u32 {
        match self {
            Exit::Top => 1,
            Exit::Right => 3,
            Exit::Bottom => 5,
            Exit::Left => 7,
        }
    }

    /// The number that stands for this side.
    pub fn code(self) -> (code: u32)
        ensures
            code == self.spec_code(),
    {
        match self {
            Exit::Top => 1,
            Exit::Right => 3,
            Exit::Bottom => 5,
            Exit::Left => 7,
        }
    }

    /// The side that `code` stands for, if there is one.
    pub open spec fn spec_from_code(code: int) -> Option<Exit> {
        if code == 1 {
            Some(Exit::Top)
        }         else if code == 3 {
            Some(Exit::Right)
        }         else if code == 5 {
            Some(Exit::Bottom)
        }         else if code == 7 {
            Some(Exit::Left)
        } else {
            None
        }
    }

    /// The side that `code` stands for, if there is one.
    pub fn from_code(code: u32) -> (found: Option<Exit>)
        ensures
            found == Self::spec_from_code(code as int),
            match found {
                Some(t) => t.spec_code() == code,
                None => forall|t: Exit| t.spec_code() != code,
            },
    {
        match code {
            1 => Some(Exit::Top),
            3 => Some(Exit::Right),
            5 => Some(Exit::Bottom),
            7 => Some(Exit::Left),
            _ => None,
        }
    }

    /// No two values share a number.
    pub proof fn lemma_code_injective(a: Exit, b: Exit)
        ensures
            a.spec_code() == b.spec_code() ==> a == b,
    {
    }
}

/// The colors of a flag.
#[derive(Clone, Copy, Debug, PartialEq, Eq, Hash, Structural)]
pub enum Color {
    Red,
    Purple,
    Blue,
    Cyan,
    Green,
    Yellow,
    Orange,
    Brown,
    Grey,
    White,
}

impl Color {
    /// The number that stands for this color.
    pub open spec fn spec_code(self) -> u32 {
        match self {
            Color::Red => 1,
            Color::Purple => 2,
            Color::Blue => 3,
            Color::Cyan => 4,
            Color::Green => 5,
            Color::Yellow => 6,
            Color::Orange => 7,
            Color::Brown => 8,
            Color::Grey => 9,
            Color::White => 10,
        }
    }

    /// The number that stands for this color.
    pub fn code(self) -> (code: u32)
        ensures
            code == self.spec_code(),
    {
        match self {
            Color::Red => 1,
            Color::Purple => 2,
            Color::Blue => 3,
            Color::Cyan => 4,
            Color::Green => 5,
            Color::Yellow => 6,
            Color::Orange => 7,
            Color::Brown => 8,
            Color::Grey => 9,
            Color::White => 10,
        }
    }

    /// The color that `code` stands for, if there is one.
    pub open spec fn spec_from_code(code: int) -> Option<Color> {
        if code == 1 {
            Some(Color::Red)
        }         else if code == 2 {
            Some(Color::Purple)
        }         else if code == 3 {
            Some(Color::Blue)
        }         else if code == 4 {
            Some(Color::Cyan)
        }         else if code == 5 {
            Some(Color::Green)
        }         else if code == 6 {
            Some(Color::Yellow)
        }         else if code == 7 {
            Some(Color::Orange)
        }         else if code == 8 {
            Some(Color::Brown)
        }         else if code == 9 {
            Some(Color::Grey)
        }         else if code == 10 {
            Some(Color::White)
        } else {
            None
        }
    }

    /// The color that `code` stands for, if there is one.
    pub fn from_code(code: u32) -> (found: Option<Color>)
        ensures
            found == Self::spec_from_code(code as int),
            match found {
                Some(t) => t.spec_code() == code,
                None => forall|t: Color| t.spec_code() != code,
            },
    {
        match code {
            1 => Some(Color::Red),
            2 => Some(Color::Purple),
            3 => Some(Color::Blue),
            4 => Some(Color::Cyan),
            5 => Some(Color::Green),
            6 => Some(Color::Yellow),
            7 => Some(Color::Orange),
            8 => Some(Color::Brown),
            9 => Some(Color::Grey),
            10 => Some(Color::White),
            _ => None,
        }
    }

    /// No two values share a number.
    pub proof fn lemma_code_injective(a: Color, b: Color)
        ensures
            a.spec_code() == b.spec_code() ==> a == b,
    {
    }
}

/// The kinds of ground.
#[derive(Clone, Copy, Debug, PartialEq, Eq, Hash, Structural)]
pub enum Terrain {
    Plain,
    Wall,
    Swamp,
}

impl Terrain {
    /// The number that stands for this kind of ground.
    pub open spec fn spec_code(self) -> u32 {
        match self {
            Terrain::Plain => 0,
            Terrain::Wall => 1,
            Terrain::Swamp => 2,
        }
    }

    /// The number that stands for this kind of ground.
    pub fn code(self) -> (code: u32)
        ensures
            code == self.spec_code(),
    {
        match self {
            Terrain::Plain => 0,
            Terrain::Wall => 1,
            Terrain::Swamp => 2,
        }
    }

    /// The kind of ground that `code` stands for, if there is one.
    pub open spec fn spec_from_code(code: int) -> Option<Terrain> {
        if code == 0 {
            Some(Terrain::Plain)
        }         else if code == 1 {
            Some(Terrain::Wall)
        }         else if code == 2 {
            Some(Terrain::Swamp)
        } else {
            None
        }
    }

    /// The kind of ground that `code` stands for, if there is one.
    pub fn from_code(code: u32) -> (found: Option<Terrain>)
        ensures
            found == Self::spec_from_code(code as int),
            match found {
                Some(t) => t.spec_code() == code,
                None => forall|t: Terrain| t.spec_code() != code,
            },
    {
        match code {
            0 => Some(Terrain::Plain),
            1 => Some(Terrain::Wall),
            2 => Some(Terrain::Swamp),
            _ => None,
        }
    }

    /// No two values share a number.
    pub proof fn lemma_code_injective(a: Terrain, b: Terrain)
        ensures
            a.spec_code() == b.spec_code() ==> a == b,
    {
    }
}

/// The ways in which an attack is made.
#[derive(Clone, Copy, Debug, PartialEq, Eq, Hash, Structural)]
pub enum AttackType {
    Melee,
    Ranged,
    RangedMass,
    Dismantle,
    HitBack,
    Nuke,
}

impl AttackType {
    /// The number that stands for this kind of attack.
    pub open spec fn spec_code(self) -> u32 {
        match self {
            AttackType::Melee => 1,
            AttackType::Ranged => 2,
            AttackType::RangedMass => 3,
            AttackType::Dismantle => 4,
            AttackType::HitBack => 5,
            AttackType::Nuke => 6,
        }
    }

    /// The number that stands for this kind of attack.
    pub fn code(self) -> (code: u32)
        ensures
            code == self.spec_code(),
    {
        match self {
            AttackType::Melee => 1,
            AttackType::Ranged => 2,
            AttackType::RangedMass => 3,
            AttackType::Dismantle => 4,
            AttackType::HitBack => 5,
            AttackType::Nuke => 6,
        }
    }

    /// The kind of attack that `code` stands for, if there is one.
    pub open spec fn spec_from_code(code: int) -> Option<AttackType> {
        if code == 1 {
            Some(AttackType::Melee)
        }         else if code == 2 {
            Some(AttackType::Ranged)
        }         else if code == 3 {
            Some(AttackType::RangedMass)
        }         else if code == 4 {
            Some(AttackType::Dismantle)
        }         else if code == 5 {
            Some(AttackType::HitBack)
        }         else if code == 6 {
            Some(AttackType::Nuke)
        } else {
            None
        }
    }

    /// The kind of attack that `code` stands for, if there is one.
    pub fn from_code(code: u32) -> (found: Option<AttackType>)
        ensures
            found == Self::spec_from_code(code as int),
            match found {
                Some(t) => t.spec_code() == code,
                None => forall|t: AttackType| t.spec_code() != code,
            },
    {
        match code {
            1 => Some(AttackType::Melee),
            2 => Some(AttackType::Ranged),
            3 => Some(AttackType::RangedMass),
            4 => Some(AttackType::Dismantle),
            5 => Some(AttackType::HitBack),
            6 => Some(AttackType::Nuke),
            _ => None,
        }
    }

    /// No two values share a number.
    pub proof fn lemma_code_injective(a: AttackType, b: AttackType)
        ensures
            a.spec_code() == b.spec_code() ==> a == b,
    {
    }
}

/// The ways in which a creep is healed.
#[derive(Clone, Copy, Debug, PartialEq, Eq, Hash, Structural)]
pub enum HealType {
    Melee,
    Ranged,
}

impl HealType {
    /// The number that stands for this kind of healing.
    pub open spec fn spec_code(self) -> u32 {
        match self {
            HealType::Melee => 1,
            HealType::Ranged => 2,
        }
    }

    /// The number that stands for this kind of healing.
    pub fn code(self) -> (code: u32)
        ensures
            code == self.spec_code(),
    {
        match self {
            HealType::Melee => 1,
            HealType::Ranged => 2,
        }
    }

    /// The kind of healing that `code` stands for, if there is one.
    pub open spec fn spec_from_code(code: int) -> Option<HealType> {
        if code == 1 {
            Some(HealType::Melee)
        }         else if code == 2 {
            Some(HealType::Ranged)
        } else {
            None
        }
    }

    /// The kind of healing that `code` stands for, if there is one.
    pub fn from_code(code: u32) -> (found: Option<HealType>)
        ensures
            found == Self::spec_from_code(code as int),
            match found {
                Some(t) => t.spec_code() == code,
                None => forall|t: HealType| t.spec_code() != code,
            },
    {
        match code {
            1 => Some(HealType::Melee),
            2 => Some(HealType::Ranged),
            _ => None,
        }
    }

    /// No two values share a number.
    pub proof fn lemma_code_injective(a: HealType, b: HealType)
        ensures
            a.spec_code() == b.spec_code() ==> a == b,
    {
    }
}

impl Exit {
    /// The direction in which this side of the room lies.
    pub fn direction(self) -> (dir: Direction)
        ensures
            dir.spec_code() == self.spec_code(),
    {
        match self {
            Exit::Top => Direction::Top,
            Exit::Right => Direction::Right,
            Exit::Bottom => Direction::Bottom,
            Exit::Left => Direction::Left,
        }
    }
}

} // verus!
