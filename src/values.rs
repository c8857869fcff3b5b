//! Numeric values that the emulated program uses for its own state.
use vstd::prelude::*;

verus! {

pub const FALSE: u8 = 0;
pub const TRUE: u8 = 1;

/// Added to the trainer class when setting the current opponent.
pub const TRAINER_TAG: u8 = 0xC8;

/// Any tile with an id above this one belongs to a menu or a text box, which
/// is drawn above sprites.
pub const MAX_MAP_TILE: u8 = 0x5F;

/// The direction a player faces.
#[derive(Clone, Copy, Debug, PartialEq, Eq, Structural)]
pub enum Direction {
    Down,
    Up,
    Left,
    Right,
}

/// The byte by which the emulated program stores a direction.
pub open spec fn direction_code(d: Direction) -> u8 {
    match d {
        Direction::Down => 0x0,
        Direction::Up => 0x4,
        Direction::Left => 0x8,
        Direction::Right => 0xC,
    }
}

/// The direction stored as `n`, if `n` is one of the four direction codes.
pub open spec fn direction_from_code(n: int) -> Option<Direction> {
    if n == 0x0 {
        Some(Direction::Down)
    } else if n == 0x4 {
        Some(Direction::Up)
    } else if n == 0x8 {
        Some(Direction::Left)
    } else if n == 0xC {
        Some(Direction::Right)
    } else {
        None
    }
}

impl Direction {
    /// The byte by which the emulated program stores this direction.
    pub fn code(&self) -> (r: u8)
        ensures
            r == direction_code(*self),
    {
        match self {
            Direction::Down => 0x0,
            Direction::Up => 0x4,
            Direction::Left => 0x8,
            Direction::Right => 0xC,
        }
    }

    /// Reads a direction code as a signed number.
    pub fn from_i64(n: i64) -> (r: Option<Direction>)
        ensures
            r == direction_from_code(n as int),
    {
        match n {
            0x0 => Some(Direction::Down),
            0x4 => Some(Direction::Up),
            0x8 => Some(Direction::Left),
            0xC => Some(Direction::Right),
            _ => None,
        }
    }

    /// Reads a direction code as an unsigned number.
    pub fn from_u64(n: u64) -> (r: Option<Direction>)
        ensures
            r == direction_from_code(n as int),
    {
        if n <= 0xC {
            Direction::from_i64(n as i64)
        } else {
            None
        }
    }

    /// Reads a direction code from a memory cell.
    pub fn from_u8(n: u8) -> (r: Option<Direction>)
        ensures
            r == direction_from_code(n as int),
    {
        Direction::from_i64(n as i64)
    }
}

/// A facing as the emulated program stores it in the player's sprite data.
#[derive(Clone, Copy, Debug, PartialEq, Eq, Structural)]
pub enum PlayerDir {
    Down,
    Up,
    Left,
    Right,
}

impl PlayerDir {
    /// The byte by which the emulated program stores this facing.
    pub fn code(&self) -> (r: u8)
        ensures
            r == match *self {
                PlayerDir::Down => 0u8,
                PlayerDir::Up => 4u8,
                PlayerDir::Left => 8u8,
                PlayerDir::Right => 12u8,
            },
    {
        match self {
            PlayerDir::Down => 0,
            PlayerDir::Up => 4,
            PlayerDir::Left => 8,
            PlayerDir::Right => 12,
        }
    }
}

/// The kind of battle the emulated program runs.
#[derive(Clone, Copy, Debug, PartialEq, Eq, Structural)]
pub enum BattleType {
    Normal,
    OldMan,
    Safari,
}

impl BattleType {
    pub fn code(&self) -> (r: u8)
        ensures
            r == match *self {
                BattleType::Normal => 0u8,
                BattleType::OldMan => 1u8,
                BattleType::Safari => 2u8,
            },
    {
        match self {
            BattleType::Normal => 0,
            BattleType::OldMan => 1,
            BattleType::Safari => 2,
        }
    }
}

/// Whether a battle is running, and against whom.
#[derive(Clone, Copy, Debug, PartialEq, Eq, Structural)]
pub enum ActiveBattle {
    NoBattle,
    Wild,
    Trainer,
}

impl ActiveBattle {
    pub fn code(&self) -> (r: u8)
        ensures
            r == match *self {
                ActiveBattle::NoBattle => 0u8,
                ActiveBattle::Wild => 1u8,
                ActiveBattle::Trainer => 2u8,
            },
    {
        match self {
            ActiveBattle::NoBattle => 0,
            ActiveBattle::Wild => 1,
            ActiveBattle::Trainer => 2,
        }
    }
}

/// The trainer classes that the battle setup uses.
#[derive(Clone, Copy, Debug, PartialEq, Eq, Structural)]
pub enum TrainerClass {
    Unknown,
    ProfOak,
}

impl TrainerClass {
    pub fn code(&self) -> (r: u8)
        ensures
            r == match *self {
                TrainerClass::Unknown => 0x00u8,
                TrainerClass::ProfOak => 0x1Au8,
            },
    {
        match self {
            TrainerClass::Unknown => 0x00,
            TrainerClass::ProfOak => 0x1A,
        }
    }
}

pub const POKEID_RYHDON: u8 = 0x01;
pub const POKEID_WEEDLE: u8 = 0x70;

pub const STATUS_NONE: u8 = 0;
pub const STATUS_POISON: u8 = 3;
pub const STATUS_BURN: u8 = 4;
pub const STATUS_FREEZE: u8 = 5;
pub const STATUS_PARALYZE: u8 = 6;
pub const STATUS_SLEEP: u8 = 7;

pub const TYPE_NORMAL: u8 = 0x00;
pub const TYPE_FIGHTING: u8 = 0x01;
pub const TYPE_FLYING: u8 = 0x02;
pub const TYPE_POISON: u8 = 0x03;
pub const TYPE_GROUND: u8 = 0x04;
pub const TYPE_ROCK: u8 = 0x05;
pub const TYPE_BUG: u8 = 0x07;
pub const TYPE_GHOST: u8 = 0x08;
pub const TYPE_FIRE: u8 = 0x14;
pub const TYPE_WATER: u8 = 0x15;
pub const TYPE_GRASS: u8 = 0x16;
pub const TYPE_ELECTRIC: u8 = 0x17;
pub const TYPE_PSYCHIC: u8 = 0x18;
pub const TYPE_ICE: u8 = 0x19;
pub const TYPE_DRAGON: u8 = 0x1A;

pub const MOVE_NONE: u8 = 0x00;
pub const MOVE_POUND: u8 = 0x01;
pub const MOVE_KARATE_CHOP: u8 = 0x02;
pub const MOVE_DOUBLESLAP: u8 = 0x03;
pub const MOVE_COMET_PUNCH: u8 = 0x04;
pub const MOVE_MEGA_PUNCH: u8 = 0x05;
pub const MOVE_PAY_DAY: u8 = 0x06;
pub const MOVE_FIRE_PUNCH: u8 = 0x07;
pub const MOVE_ICE_PUNCH: u8 = 0x08;
pub const MOVE_THUNDERPUNCH: u8 = 0x09;
pub const MOVE_SCRATCH: u8 = 0x0a;
pub const MOVE_VICEGRIP: u8 = 0x0b;
pub const MOVE_GUILLOTINE: u8 = 0x0c;
pub const MOVE_RAZOR_WIND: u8 = 0x0d;
pub const MOVE_SWORDS_DANCE: u8 = 0x0e;
pub const MOVE_CUT: u8 = 0x0f;

} // verus!
