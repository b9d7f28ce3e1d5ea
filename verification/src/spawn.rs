//! Construction of a level and of what belongs to it.
//!
//! A spawn is asked for by a signal. The handler of a signal builds the parts
//! of its own entity and sends the signals for the entities below it, each of
//! which is handled to the end before the handler goes on.

use crate::movement::Coordinate;
use crate::movement::Intent;
use crate::movement::MovementController;
use crate::movement::Sprite;
use crate::movement::Transform;
use crate::world::Components;
use crate::world::Entity;
use crate::world::World;
use vstd::prelude::*;

verus! {

/// Marks the entity that is the level.
#[derive(Clone, Copy, PartialEq, Eq, Debug)]
pub struct Level;

/// Marks an entity that is a player.
#[derive(Clone, Copy, PartialEq, Eq, Debug)]
pub struct Player;

/// Asks for a level.
#[derive(Clone, Copy, Debug)]
pub struct SpawnLevel;

/// Asks for a player under the entity `parent`.
#[derive(Clone, Copy, Debug)]
pub struct SpawnPlayer {
    pub parent: Entity,
}

/// A request to spawn, of any kind.
#[derive(Clone, Copy, Debug)]
pub enum Signal {
    Level(SpawnLevel),
    Player(SpawnPlayer),
}

impl Signal {
    /// How many kinds of entity lie below the one asked for. A handler only
    /// sends signals of a lower depth, so every cascade comes to an end.
    pub open spec fn depth(self) -> nat {
        match self {
            Signal::Level(_) => 1,
            Signal::Player(_) => 0,
        }
    }
}

/// How large a player is drawn.
pub const PLAYER_SCALE: u32 = 8;

/// The transform of a new entity: at the origin.
pub open spec fn origin(scale: u32) -> Transform {
    Transform {
        x: Coordinate { axial: 0, diagonal: 0 },
        y: Coordinate { axial: 0, diagonal: 0 },
        depth: 0,
        scale,
    }
}

impl Components {
    /// This entity with the parts of a level: name, marker and place.
    pub open spec fn as_level(self) -> Components {
        Components { name: Some("Level"), level: Some(Level), transform: Some(origin(1)), ..self }
    }

    /// This entity with the parts of a player: name, marker, sprite, place
    /// and a controller that asks for no movement.
    pub open spec fn as_player(self) -> Components {
        Components {
            name: Some("Player"),
            player: Some(Player),
            transform: Some(origin(PLAYER_SCALE)),
            sprite: Some(Sprite { flip_x: false }),
            controller: Some(MovementController(Intent::zero())),
            ..self
        }
    }

    /// A new entity under `parent`, without any part yet.
    pub open spec fn child_of(parent: Entity) -> Components {
        Components { parent: Some(parent), ..Components::bare() }
    }
}

/// How many of `entities` are players.
pub open spec fn player_count(entities: Seq<Components>) -> nat
    decreases entities.len(),
{
    if entities.len() == 0 {
        0
    } else {
        player_count(entities.drop_last()) + if entities.last().player is Some {
            1nat
        } else {
            0nat
        }
    }
}

/// The table `entities` after a level has been spawned into it: the level
/// comes last but one, and its player last, under it.
pub open spec fn with_level(entities: Seq<Components>) -> Seq<Components> {
    entities.push(Components::bare().as_level()).push(
        Components::child_of(Entity(entities.len() as usize)).as_player(),
    )
}

/// The table `entities` after a player has been spawned under `parent`.
pub open spec fn with_player(entities: Seq<Components>, parent: Entity) -> Seq<Components> {
    entities.push(Components::child_of(parent).as_player())
}

fn origin_transform(scale: u32) -> (t: Transform)
    ensures
        t == origin(scale),
{
    Transform {
        x: Coordinate { axial: 0, diagonal: 0 },
        y: Coordinate { axial: 0, diagonal: 0 },
        depth: 0,
        scale,
    }
}

/// Construct a player entity: gives the entity `id` the parts of a player
/// and leaves its other parts, and all other entities, as they are.
pub fn player(id: Entity, world: &mut World)
    requires
        id.0 < old(world).entities@.len(),
    ensures
        final(world).entities@ == old(world).entities@.update(
            id.0 as int,
            old(world).entities@[id.0 as int].as_player(),
        ),
{
    let mut c: Components = world.entities[id.0];
    c.name = Some("Player");
    c.player = Some(Player);
    c.transform = Some(origin_transform(PLAYER_SCALE));
    c.sprite = Some(Sprite { flip_x: false });
    c.controller = Some(MovementController::default());
    world.entities.set(id.0, c);
}

/// Handles the request for a player: a new entity under the parent that the
/// request names, built by `player`.
pub fn spawn_player(trigger: SpawnPlayer, world: &mut World)
    ensures
        final(world).entities@ == with_player(old(world).entities@, trigger.parent),
{
    let id = world.spawn();
    let mut c: Components = world.entities[id.0];
    c.parent = Some(trigger.parent);
    world.entities.set(id.0, c);
    player(id, world);
}

/// Construct a level entity: gives the entity `id` the parts of a level and
/// asks for its player, which exists by the time this returns.
pub fn level(id: Entity, world: &mut World)
    requires
        id.0 < old(world).entities@.len(),
    ensures
        final(world).entities@ == with_player(
            old(world).entities@.update(id.0 as int, old(world).entities@[id.0 as int].as_level()),
            id,
        ),
    decreases 1nat, 0nat,
{
    let mut c: Components = world.entities[id.0];
    c.name = Some("Level");
    c.level = Some(Level);
    c.transform = Some(origin_transform(1));
    world.entities.set(id.0, c);
    world.trigger(Signal::Player(SpawnPlayer { parent: id }));
}

/// Handles the request for a level: a new entity built by `level`, and with
/// it everything that belongs to a level. The caller names no child.
pub fn spawn_level(_trigger: SpawnLevel, world: &mut World)
    ensures
        final(world).entities@ == with_level(old(world).entities@),
        player_count(final(world).entities@) == player_count(old(world).entities@) + 1,
    decreases 1nat, 1nat,
{
    let id = world.spawn();
    level(id, world);
    proof {
        spawning_level_adds_one_player(old(world).entities@);
    }
}

/// A new player asks for no movement and faces right, whatever its entity
/// held before.
pub proof fn new_player_stands_still(c: Components)
    ensures
        c.as_player().player is Some,
        c.as_player().controller == Some(MovementController(Intent::zero())),
        c.as_player().controller.unwrap().0.is_zero(),
        c.as_player().controller.unwrap().0.valid(),
        c.as_player().sprite == Some(Sprite { flip_x: false }),
        c.as_player().parent == c.parent,
{
    Intent::zero_is_zero();
}

/// In a world without players, spawning a level leaves exactly one player.
pub proof fn level_in_a_world_without_players_has_one(entities: Seq<Components>)
    requires
        player_count(entities) == 0,
    ensures
        player_count(with_level(entities)) == 1,
{
    spawning_level_adds_one_player(entities);
}

/// Spawning a level adds exactly one player, under the level, and leaves
/// every entity that was there as it was.
pub proof fn spawning_level_adds_one_player(entities: Seq<Components>)
    ensures
        player_count(with_level(entities)) == player_count(entities) + 1,
        with_level(entities).len() == entities.len() + 2,
        forall|i: int| 0 <= i < entities.len() ==> with_level(entities)[i] == entities[i],
        with_level(entities)[entities.len() as int].level is Some,
        with_level(entities)[entities.len() as int + 1].player is Some,
        with_level(entities)[entities.len() as int + 1].parent == Some(Entity(entities.len() as usize)),
{
    let level_added = entities.push(Components::bare().as_level());
    assert(level_added.drop_last() == entities);
    assert(player_count(level_added) == player_count(entities));
    assert(with_level(entities).drop_last() == level_added);
    assert(player_count(with_level(entities)) == player_count(level_added) + 1);
}

impl World {
    /// Adds an entity without any part and returns its name.
    pub fn spawn(&mut self) -> (id: Entity)
        ensures
            id.0 == old(self).entities@.len(),
            final(self).entities@ == old(self).entities@.push(Components::bare()),
    {
        let id = Entity(self.entities.len());
        self.entities.push(Components::empty());
        id
    }

    /// Hands `signal` to the handler of its kind and returns when that
    /// handler, and every handler that it called on, has finished.
    pub fn trigger(&mut self, signal: Signal)
        ensures
            final(self).entities@ == match signal {
                Signal::Level(_) => with_level(old(self).entities@),
                Signal::Player(request) => with_player(old(self).entities@, request.parent),
            },
        decreases signal.depth(), 2nat,
    {
        match signal {
            Signal::Level(request) => spawn_level(request, self),
            Signal::Player(request) => spawn_player(request, self),
        }
    }
}

} // verus!
