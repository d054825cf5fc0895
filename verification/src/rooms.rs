//! The rooms of the map and their descriptions.

use vstd::prelude::*;
use crate::text::ends_with_break;

verus! {

/// A location of the map: a three-by-three grid around the center room.
#[derive(Clone, Copy, Debug, PartialEq, Eq, Structural, Hash, PartialOrd, Ord)]
pub enum Room {
    NorthWest,
    North,
    NorthEast,
    West,
    Center,
    East,
    SouthWest,
    South,
    SouthEast,
}

impl Room {
    /// The text shown when the player first enters the room, or looks at it.
    pub open spec fn long_text(self) -> Seq<char> {
        match self {
            Room::NorthWest => "You are in the north-west room.  A delicious smell lingers in the air."@,
            Room::North => "You are in the north room.  It is very cold here."@,
            Room::NorthEast => "You are in the north-east room."@,
            Room::West => "You are in the west room.  The lights are turned down low."@,
            Room::Center => "You are in the center room.  Doors lead out in all cardinal directions."@,
            Room::East => "You are in the east room.  It gives off a bright & cheery air."@,
            Room::SouthWest => "You are in the south-west room."@,
            Room::South => "You are in the south room.  Antarctic memorabilia are scattered about."@,
            Room::SouthEast => "You are in the south-east room."@,
        }
    }

    /// The text shown when the player comes back to the room.
    pub open spec fn short_text(self) -> Seq<char> {
        match self {
            Room::NorthWest => "You are in the north-west room."@,
            Room::North => "You are in the north room."@,
            Room::NorthEast => "You are in the north-east room."@,
            Room::West => "You are in the west room."@,
            Room::Center => "You are in the center room."@,
            Room::East => "You are in the east room."@,
            Room::SouthWest => "You are in the south-west room."@,
            Room::South => "You are in the south room."@,
            Room::SouthEast => "You are in the south-east room."@,
        }
    }

    /// The room's place in the order in which the rooms are declared.
    pub open spec fn ordinal(self) -> int {
        match self {
            Room::NorthWest => 0,
            Room::North => 1,
            Room::NorthEast => 2,
            Room::West => 3,
            Room::Center => 4,
            Room::East => 5,
            Room::SouthWest => 6,
            Room::South => 7,
            Room::SouthEast => 8,
        }
    }

    /// The room's place in the order in which the rooms are declared.
    pub fn index(&self) -> (i: usize)
        ensures
            i == self.ordinal(),
            i < 9,
    {
        match self {
            Room::NorthWest => 0,
            Room::North => 1,
            Room::NorthEast => 2,
            Room::West => 3,
            Room::Center => 4,
            Room::East => 5,
            Room::SouthWest => 6,
            Room::South => 7,
            Room::SouthEast => 8,
        }
    }

    /// The text shown when the player first enters the room, or looks at it.
    pub fn long_description(&self) -> (text: &'static str)
        ensures
            text@ == self.long_text(),
    {
        match self {
            Room::NorthWest => "You are in the north-west room.  A delicious smell lingers in the air.",
            Room::North => "You are in the north room.  It is very cold here.",
            Room::NorthEast => "You are in the north-east room.",
            Room::West => "You are in the west room.  The lights are turned down low.",
            Room::Center => "You are in the center room.  Doors lead out in all cardinal directions.",
            Room::East => "You are in the east room.  It gives off a bright & cheery air.",
            Room::SouthWest => "You are in the south-west room.",
            Room::South => "You are in the south room.  Antarctic memorabilia are scattered about.",
            Room::SouthEast => "You are in the south-east room.",
        }
    }

    /// The text shown when the player comes back to the room.
    pub fn short_description(&self) -> (text: &'static str)
        ensures
            text@ == self.short_text(),
    {
        match self {
            Room::NorthWest => "You are in the north-west room.",
            Room::North => "You are in the north room.",
            Room::NorthEast => "You are in the north-east room.",
            Room::West => "You are in the west room.",
            Room::Center => "You are in the center room.",
            Room::East => "You are in the east room.",
            Room::SouthWest => "You are in the south-west room.",
            Room::South => "You are in the south room.",
            Room::SouthEast => "You are in the south-east room.",
        }
    }
}

/// Two rooms with the same ordinal are the same room, and every ordinal is
/// one of the nine from 0 to 8.
pub proof fn lemma_ordinal_tells_rooms_apart(a: Room, b: Room)
    ensures
        0 <= a.ordinal() < 9,
        a.ordinal() == b.ordinal() <==> a == b,
{
}

/// No description of a room is empty, and none ends with a line break.
pub proof fn lemma_descriptions_end_in_print(room: Room)
    ensures
        room.long_text().len() > 0,
        room.short_text().len() > 0,
        !ends_with_break(room.long_text()),
        !ends_with_break(room.short_text()),
{
    reveal_strlit("You are in the north-west room.  A delicious smell lingers in the air.");
    reveal_strlit("You are in the north room.  It is very cold here.");
    reveal_strlit("You are in the north-east room.");
    reveal_strlit("You are in the west room.  The lights are turned down low.");
    reveal_strlit("You are in the center room.  Doors lead out in all cardinal directions.");
    reveal_strlit("You are in the east room.  It gives off a bright & cheery air.");
    reveal_strlit("You are in the south-west room.");
    reveal_strlit("You are in the south room.  Antarctic memorabilia are scattered about.");
    reveal_strlit("You are in the south-east room.");
    reveal_strlit("You are in the north-west room.");
    reveal_strlit("You are in the north room.");
    reveal_strlit("You are in the west room.");
    reveal_strlit("You are in the center room.");
    reveal_strlit("You are in the east room.");
    reveal_strlit("You are in the south room.");
}

} // verus!
