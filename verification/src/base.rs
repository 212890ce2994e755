//! Shared base data: small closed enumerations and the player profile
//! property record, with their integer encodings.

use vstd::prelude::*;

verus! {

/// Number of updates (ticks) to do per second.
pub const TPS: u32 = 20;
/// The number of milliseconds per tick.
pub const TICK_MILLIS: u32 = 50;

/// A horizontal cardinal direction.
#[derive(Copy, Clone, Debug, PartialEq, Eq, Structural, Hash)]
pub enum Direction {
    North,
    South,
    East,
    West,
}

/// The encoding of a direction as a small integer.
pub open spec fn spec_direction_id(d: Direction) -> u8 {
    match d {
        Direction::North => 0,
        Direction::South => 1,
        Direction::East => 2,
        Direction::West => 3,
    }
}

impl Direction {
    /// The direction's integer encoding.
    pub fn to_id(&self) -> (r: u8)
        ensures
            r == spec_direction_id(*self),
    {
        match self {
            Direction::North => 0,
            Direction::South => 1,
            Direction::East => 2,
            Direction::West => 3,
        }
    }

    /// The direction a small integer encodes, if any.
    pub fn from_id(id: u8) -> (r: Option<Direction>)
        ensures
            r matches Some(d) ==> spec_direction_id(d) == id,
            r is None <==> id >= 4,
    {
        if id == 0 {
            Some(Direction::North)
        } else if id == 1 {
            Some(Direction::South)
        } else if id == 2 {
            Some(Direction::East)
        } else if id == 3 {
            Some(Direction::West)
        } else {
            None
        }
    }
}

/// A player's game mode.
#[derive(Copy, Clone, Debug, PartialEq, Eq, Structural, Hash)]
pub enum Gamemode {
    Survival,
    Creative,
    Adventure,
    Spectator,
}

/// The encoding of a game mode as a small integer.
pub open spec fn spec_gamemode_id(g: Gamemode) -> u8 {
    match g {
        Gamemode::Survival => 0,
        Gamemode::Creative => 1,
        Gamemode::Adventure => 2,
        Gamemode::Spectator => 3,
    }
}

impl Gamemode {
    /// The game mode's integer encoding.
    pub fn to_id(&self) -> (r: u8)
        ensures
            r == spec_gamemode_id(*self),
    {
        match self {
            Gamemode::Survival => 0,
            Gamemode::Creative => 1,
            Gamemode::Adventure => 2,
            Gamemode::Spectator => 3,
        }
    }

    /// The game mode a small integer encodes, if any.
    pub fn from_id(id: u8) -> (r: Option<Gamemode>)
        ensures
            r matches Some(g) ==> spec_gamemode_id(g) == id,
            r is None <==> id >= 4,
    {
        if id == 0 {
            Some(Gamemode::Survival)
        } else if id == 1 {
            Some(Gamemode::Creative)
        } else if id == 2 {
            Some(Gamemode::Adventure)
        } else if id == 3 {
            Some(Gamemode::Spectator)
        } else {
            None
        }
    }
}

/// A profile property, which stores metadata for some player's account.
/// This is usually used to store skin data.
#[derive(Debug, Clone)]
pub struct ProfileProperty {
    pub name: String,
    pub value: String,
    pub signature: String,
}

} // verus!
