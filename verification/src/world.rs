//! The map: which room lies in which direction, and which room holds which
//! entity. Both tables are fixed; looking something up is all that can be done
//! with them.

use vstd::prelude::*;
use crate::entities::Entity;
use crate::rooms::Room;
use crate::vocab::Motion;

verus! {

/// The travel table: the room reached from `room` by going `motion`, or `None`
/// where no door leads that way.
pub open spec fn travel(room: Room, motion: Motion) -> Option<Room> {
    match (room, motion) {
        (Room::NorthWest, Motion::East) => Some(Room::North),
        (Room::NorthWest, Motion::South) => Some(Room::West),
        (Room::North, Motion::East) => Some(Room::NorthEast),
        (Room::North, Motion::South) => Some(Room::Center),
        (Room::North, Motion::West) => Some(Room::NorthWest),
        (Room::NorthEast, Motion::South) => Some(Room::East),
        (Room::NorthEast, Motion::West) => Some(Room::North),
        (Room::West, Motion::North) => Some(Room::NorthWest),
        (Room::West, Motion::East) => Some(Room::Center),
        (Room::West, Motion::South) => Some(Room::SouthWest),
        (Room::Center, Motion::North) => Some(Room::North),
        (Room::Center, Motion::East) => Some(Room::East),
        (Room::Center, Motion::South) => Some(Room::South),
        (Room::Center, Motion::West) => Some(Room::West),
        (Room::East, Motion::North) => Some(Room::NorthEast),
        (Room::East, Motion::South) => Some(Room::SouthEast),
        (Room::East, Motion::West) => Some(Room::Center),
        (Room::SouthWest, Motion::North) => Some(Room::West),
        (Room::SouthWest, Motion::East) => Some(Room::South),
        (Room::South, Motion::North) => Some(Room::Center),
        (Room::South, Motion::East) => Some(Room::SouthEast),
        (Room::South, Motion::West) => Some(Room::SouthWest),
        (Room::SouthEast, Motion::North) => Some(Room::East),
        (Room::SouthEast, Motion::West) => Some(Room::South),
        _ => None,
    }
}

/// The fixed placement: the one room that holds `entity`, or `None` for an
/// entity that stands nowhere.
pub open spec fn placement(entity: Entity) -> Option<Room> {
    match entity {
        Entity::Banquet => Some(Room::NorthWest),
        Entity::Books => Some(Room::SouthWest),
        Entity::Cushions => Some(Room::NorthEast),
        Entity::Globe => Some(Room::North),
        Entity::Mural => Some(Room::East),
        Entity::Painting => Some(Room::West),
        Entity::PenguinPhoto => Some(Room::South),
        Entity::SecretPlans => Some(Room::SouthEast),
        Entity::TicTacToe => Some(Room::Center),
    }
}

/// Whether `entity` stands in `room`.
pub open spec fn stands_in(entity: Entity, room: Room) -> bool {
    placement(entity) == Some(room)
}

/// The entities that stand in `room`, in the order of [`Entity::every`].
pub open spec fn fixtures(room: Room) -> Seq<Entity> {
    Entity::every().filter(|e: Entity| stands_in(e, room))
}

/// The first of `entities` that stands in `room` and can be read.
pub open spec fn first_readable(room: Room, entities: Seq<Entity>) -> Option<Entity>
    decreases entities.len(),
{
    if entities.len() == 0 {
        None
    } else if stands_in(entities[0], room) && entities[0].readable() {
        Some(entities[0])
    } else {
        first_readable(room, entities.drop_first())
    }
}

/// The entity that a player in `room` reads without naming one: the first
/// readable entity that stands there.
pub open spec fn readable_in(room: Room) -> Option<Entity> {
    first_readable(room, Entity::every())
}

/// Looks `(room, motion)` up in the travel table.
pub fn destination(room: Room, motion: Motion) -> (target: Option<Room>)
    ensures
        target == travel(room, motion),
{
    match (room, motion) {
        (Room::NorthWest, Motion::East) => Some(Room::North),
        (Room::NorthWest, Motion::South) => Some(Room::West),
        (Room::North, Motion::East) => Some(Room::NorthEast),
        (Room::North, Motion::South) => Some(Room::Center),
        (Room::North, Motion::West) => Some(Room::NorthWest),
        (Room::NorthEast, Motion::South) => Some(Room::East),
        (Room::NorthEast, Motion::West) => Some(Room::North),
        (Room::West, Motion::North) => Some(Room::NorthWest),
        (Room::West, Motion::East) => Some(Room::Center),
        (Room::West, Motion::South) => Some(Room::SouthWest),
        (Room::Center, Motion::North) => Some(Room::North),
        (Room::Center, Motion::East) => Some(Room::East),
        (Room::Center, Motion::South) => Some(Room::South),
        (Room::Center, Motion::West) => Some(Room::West),
        (Room::East, Motion::North) => Some(Room::NorthEast),
        (Room::East, Motion::South) => Some(Room::SouthEast),
        (Room::East, Motion::West) => Some(Room::Center),
        (Room::SouthWest, Motion::North) => Some(Room::West),
        (Room::SouthWest, Motion::East) => Some(Room::South),
        (Room::South, Motion::North) => Some(Room::Center),
        (Room::South, Motion::East) => Some(Room::SouthEast),
        (Room::South, Motion::West) => Some(Room::SouthWest),
        (Room::SouthEast, Motion::North) => Some(Room::East),
        (Room::SouthEast, Motion::West) => Some(Room::South),
        _ => None,
    }
}

/// Looks `entity` up in the fixed placement.
pub fn room_of(entity: Entity) -> (room: Option<Room>)
    ensures
        room == placement(entity),
{
    match entity {
        Entity::Banquet => Some(Room::NorthWest),
        Entity::Books => Some(Room::SouthWest),
        Entity::Cushions => Some(Room::NorthEast),
        Entity::Globe => Some(Room::North),
        Entity::Mural => Some(Room::East),
        Entity::Painting => Some(Room::West),
        Entity::PenguinPhoto => Some(Room::South),
        Entity::SecretPlans => Some(Room::SouthEast),
        Entity::TicTacToe => Some(Room::Center),
    }
}

/// Tells whether `entity` stands in `room`.
pub fn is_in(entity: Entity, room: Room) -> (here: bool)
    ensures
        here == stands_in(entity, room),
{
    match room_of(entity) {
        Some(r) => r == room,
        None => false,
    }
}

/// Finds the entity that a player in `room` reads without naming one.
pub fn find_readable(room: Room) -> (found: Option<Entity>)
    ensures
        found == readable_in(room),
{
    let all = Entity::all();
    let mut i: usize = 0;
    assert(all@.skip(0) =~= all@);
    while i < 9
        invariant
            i <= 9,
            all@ == Entity::every(),
            all@.len() == 9,
            readable_in(room) == first_readable(room, all@.skip(i as int)),
        decreases 9 - i,
    {
        let e = all[i];
        assert(all@.skip(i as int).drop_first() =~= all@.skip(i as int + 1));
        if is_in(e, room) && e.read().is_some() {
            return Some(e);
        }
        i = i + 1;
    }
    None
}

/// A room lists an entity among what stands in it if and only if the fixed
/// placement maps the entity to that room.
pub proof fn lemma_fixture_iff_placed(room: Room, entity: Entity)
    ensures
        fixtures(room).contains(entity) <==> placement(entity) == Some(room),
{
    let all = Entity::every();
    let here = |e: Entity| stands_in(e, room);
    crate::entities::lemma_every_entity_listed(entity);
    if stands_in(entity, room) {
        let i = choose|i: int| 0 <= i < all.len() && all[i] == entity;
        all.lemma_filter_contains(here, i);
    }
    if fixtures(room).contains(entity) {
        let j = choose|j: int| 0 <= j < fixtures(room).len() && fixtures(room)[j] == entity;
        all.lemma_filter_pred(here, j);
    }
}

/// No room holds two entities that can be read: where a room holds a readable
/// entity, it is the one that [`readable_in`] finds.
pub proof fn lemma_one_readable_per_room(room: Room, entity: Entity)
    ensures
        stands_in(entity, room) && entity.readable() <==> readable_in(room) == Some(entity),
{
    reveal_with_fuel(first_readable, 10);
}

} // verus!
