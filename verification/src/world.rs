//! The table of entities and the passes that a tick makes over it.

use crate::movement::directional_intent;
use crate::movement::held_placement_is_kept;
use crate::movement::integration_commutes_with_splitting;
use crate::movement::intent_of;
use crate::movement::intent_of_keys_is_unit_or_zero;
use crate::movement::steps;
use crate::movement::DirectionKeys;
use crate::movement::Intent;
use crate::movement::Movement;
use crate::movement::MovementController;
use crate::movement::Sprite;
use crate::movement::StepSfx;
use crate::movement::Transform;
use crate::movement::facing_after;
use crate::spawn::Level;
use crate::spawn::Player;
use vstd::prelude::*;

verus! {

/// Names an entity: its place in the table.
#[derive(Clone, Copy, Debug)]
pub struct Entity(pub usize);

/// What an entity is made of. A part that is absent keeps the entity out of
/// the passes that need it.
#[derive(Clone, Copy, Debug)]
pub struct Components {
    pub name: Option<&'static str>,
    /// The entity that this one was spawned under.
    pub parent: Option<Entity>,
    pub level: Option<Level>,
    pub player: Option<Player>,
    pub transform: Option<Transform>,
    pub sprite: Option<Sprite>,
    pub controller: Option<MovementController>,
    pub movement: Option<Movement>,
    pub step_sfx: Option<StepSfx>,
}

/// A sound that the audio side is asked to play.
#[derive(Clone, Copy, Debug, PartialEq, Eq, Structural)]
pub enum Sfx {
    /// A step occurred.
    Step,
}

impl Components {
    /// An entity without any part.
    pub fn empty() -> (c: Components)
        ensures
            c == Components::bare(),
    {
        Components {
            name: None,
            parent: None,
            level: None,
            player: None,
            transform: None,
            sprite: None,
            controller: None,
            movement: None,
            step_sfx: None,
        }
    }

    /// An entity without any part.
    pub open spec fn bare() -> Components {
        Components {
            name: None,
            parent: None,
            level: None,
            player: None,
            transform: None,
            sprite: None,
            controller: None,
            movement: None,
            step_sfx: None,
        }
    }

    /// This entity with `intent` written into its controller, if it has one.
    pub open spec fn with_intent(self, intent: Intent) -> Components {
        if self.controller is Some {
            Components { controller: Some(MovementController(intent)), ..self }
        } else {
            self
        }
    }

    /// Whether the entity takes part in integration.
    pub open spec fn movable(self) -> bool {
        self.controller is Some && self.movement is Some && self.transform is Some
    }

    /// Whether the position after `dt` nanoseconds of movement can be held.
    pub open spec fn can_move(self, dt: u64) -> bool {
        self.movable() ==> self.transform.unwrap()@.moved(
            self.controller.unwrap().0,
            self.movement.unwrap().speed,
            dt as int,
        ).fits()
    }

    /// This entity after `dt` nanoseconds of movement along its intent.
    pub open spec fn moved(self, dt: u64) -> Components {
        if self.movable() {
            Components {
                transform: Some(
                    self.transform.unwrap()@.moved(
                        self.controller.unwrap().0,
                        self.movement.unwrap().speed,
                        dt as int,
                    ).held(),
                ),
                ..self
            }
        } else {
            self
        }
    }

    /// This entity with its sprite turned towards its intent.
    pub open spec fn faced(self) -> Components {
        if self.controller is Some && self.sprite is Some {
            Components {
                sprite: Some(
                    Sprite {
                        flip_x: facing_after(
                            self.sprite.unwrap().flip_x,
                            self.controller.unwrap().0.x() as int,
                        ),
                    },
                ),
                ..self
            }
        } else {
            self
        }
    }

    /// This entity with its step cadence `dt` nanoseconds further.
    pub open spec fn cadence_ticked(self, dt: u64) -> Components {
        if self.step_sfx is Some {
            Components { step_sfx: Some(StepSfx(self.step_sfx.unwrap().0.ticked(dt))), ..self }
        } else {
            self
        }
    }

    /// Whether the entity makes a step sound on this tick.
    pub open spec fn steps(self) -> bool {
        &&& self.controller is Some
        &&& self.step_sfx is Some
        &&& steps(self.controller.unwrap().0, self.step_sfx.unwrap().0)
    }

    /// This entity after a whole tick: intent, integration, facing, cadence.
    pub open spec fn updated(self, intent: Intent, dt: u64) -> Components {
        self.with_intent(intent).moved(dt).faced().cadence_ticked(dt)
    }
}

/// The input pass is a broadcast: after it every controller holds one and
/// the same intent, that of the keys, which is the zero vector or has
/// length one.
pub proof fn input_pass_is_a_broadcast(entities: Seq<Components>, keys: DirectionKeys, i: int)
    requires
        0 <= i < entities.len(),
        entities[i].controller is Some,
    ensures
        entities.map_values(|c: Components| c.with_intent(intent_of(keys)))[i].controller == Some(
            MovementController(intent_of(keys)),
        ),
        intent_of(keys).is_unit() || intent_of(keys).is_zero(),
{
    intent_of_keys_is_unit_or_zero(keys);
}

/// Within what can be held, the movement pass commutes with splitting a
/// tick: where an entity can move for `dt1` and then for `dt2`, it can move
/// for `dt1 + dt2` at once and ends in the same place.
pub proof fn movement_commutes_with_splitting(c: Components, dt1: u64, dt2: u64)
    requires
        dt1 + dt2 <= u64::MAX,
        c.can_move(dt1),
        c.moved(dt1).can_move(dt2),
    ensures
        c.can_move((dt1 + dt2) as u64),
        c.moved(dt1).moved(dt2) == c.moved((dt1 + dt2) as u64),
{
    if c.movable() {
        let start = c.transform.unwrap()@;
        let intent = c.controller.unwrap().0;
        let speed = c.movement.unwrap().speed;
        integration_commutes_with_splitting(start, intent, speed, dt1 as nat, dt2 as nat);
        held_placement_is_kept(start.moved(intent, speed, dt1 as int));
    }
}

/// The same of the whole table: two movement passes for `dt1` and `dt2`
/// leave every entity where one pass for `dt1 + dt2` leaves it.
pub proof fn movement_pass_commutes_with_splitting(entities: Seq<Components>, dt1: u64, dt2: u64)
    requires
        dt1 + dt2 <= u64::MAX,
        forall|i: int| 0 <= i < entities.len() ==> (#[trigger] entities[i]).can_move(dt1),
        forall|i: int|
            0 <= i < entities.len() ==> (#[trigger] entities[i]).moved(dt1).can_move(dt2),
    ensures
        forall|i: int|
            0 <= i < entities.len() ==> (#[trigger] entities[i]).can_move((dt1 + dt2) as u64),
        entities.map_values(|c: Components| c.moved(dt1)).map_values(
            |c: Components| c.moved(dt2),
        ) == entities.map_values(|c: Components| c.moved((dt1 + dt2) as u64)),
{
    assert forall|i: int| 0 <= i < entities.len() implies (#[trigger] entities[i]).can_move(
        (dt1 + dt2) as u64,
    ) && entities[i].moved(dt1).moved(dt2) == entities[i].moved((dt1 + dt2) as u64) by {
        movement_commutes_with_splitting(entities[i], dt1, dt2);
    }
    assert(entities.map_values(|c: Components| c.moved(dt1)).map_values(
        |c: Components| c.moved(dt2),
    ) =~= entities.map_values(|c: Components| c.moved((dt1 + dt2) as u64)));
}

/// A pass leaves out every entity that lacks a part it needs: without a
/// controller nothing but the cadence changes, without a speed or a place
/// there is no movement, without a sprite no facing, and without a cadence
/// no step.
pub proof fn absent_parts_exclude_from_passes(c: Components, intent: Intent, dt: u64)
    ensures
        c.controller is None ==> c.updated(intent, dt) == c.cadence_ticked(dt) && !c.steps(),
        c.movement is None || c.transform is None ==> c.moved(dt) == c,
        c.sprite is None ==> c.faced() == c,
        c.step_sfx is None ==> c.cadence_ticked(dt) == c && !c.steps(),
        c.updated(intent, dt).name == c.name,
        c.updated(intent, dt).parent == c.parent,
        c.updated(intent, dt).level == c.level,
        c.updated(intent, dt).player == c.player,
        c.updated(intent, dt).movement == c.movement,
{
}

/// How many of `entities` make a step sound on this tick.
pub open spec fn step_count(entities: Seq<Components>) -> nat
    decreases entities.len(),
{
    if entities.len() == 0 {
        0
    } else {
        step_count(entities.drop_last()) + if entities.last().steps() {
            1nat
        } else {
            0nat
        }
    }
}

/// The table of entities.
pub struct World {
    pub entities: Vec<Components>,
}

impl World {
    /// A world without entities.
    pub fn new() -> (w: World)
        ensures
            w.entities@.len() == 0,
    {
        World { entities: Vec::new() }
    }

    /// Whether every entity can hold its position after `dt` nanoseconds of
    /// movement along its present intent.
    pub open spec fn spec_can_move(&self, dt: u64) -> bool {
        forall|i: int| 0 <= i < self.entities@.len() ==> (#[trigger] self.entities@[i]).can_move(dt)
    }

    /// Whether every entity can hold its position after `dt` nanoseconds of
    /// movement along `intent`.
    pub open spec fn can_move_along(self, intent: Intent, dt: u64) -> bool {
        forall|i: int|
            0 <= i < self.entities@.len() ==> (#[trigger] self.entities@[i]).with_intent(
                intent,
            ).can_move(dt)
    }

    /// Writes the intent that `keys` ask for into every controller.
    pub fn record_movement_controller(&mut self, keys: &DirectionKeys)
        ensures
            final(self).entities@ == old(self).entities@.map_values(
                |c: Components| c.with_intent(intent_of(*keys)),
            ),
    {
        let intent = directional_intent(keys);
        let mut i: usize = 0;
        while i < self.entities.len()
            invariant
                i <= self.entities@.len(),
                self.entities@.len() == old(self).entities@.len(),
                intent == intent_of(*keys),
                forall|j: int|
                    0 <= j < i ==> self.entities@[j] == old(self).entities@[j].with_intent(intent),
                forall|j: int|
                    i <= j < self.entities@.len() ==> self.entities@[j] == old(self).entities@[j],
            decreases self.entities@.len() - i,
        {
            let mut c: Components = self.entities[i];
            if c.controller.is_some() {
                c.controller = Some(MovementController(intent));
                self.entities.set(i, c);
            }
            i = i + 1;
        }
    }

    /// Records directional input as movement intent: writes the intent that
    /// `keys` ask for into every controller, whether its entity is marked as
    /// a player or not, so that all controlled entities hold the same intent.
    pub fn record_player_directional_input(&mut self, keys: &DirectionKeys)
        ensures
            final(self).entities@ == old(self).entities@.map_values(
                |c: Components| c.with_intent(intent_of(*keys)),
            ),
    {
        let intent = directional_intent(keys);
        let mut i: usize = 0;
        while i < self.entities.len()
            invariant
                i <= self.entities@.len(),
                self.entities@.len() == old(self).entities@.len(),
                intent == intent_of(*keys),
                forall|j: int|
                    0 <= j < i ==> self.entities@[j] == old(self).entities@[j].with_intent(intent),
                forall|j: int|
                    i <= j < self.entities@.len() ==> self.entities@[j] == old(self).entities@[j],
            decreases self.entities@.len() - i,
        {
            let mut c: Components = self.entities[i];
            if c.controller.is_some() {
                c.controller = Some(MovementController(intent));
                self.entities.set(i, c);
            }
            i = i + 1;
        }
    }

    /// Whether every entity can hold its position after `dt` nanoseconds of
    /// movement along its present intent.
    #[verifier::when_used_as_spec(spec_can_move)]
    pub fn can_move(&self, dt: u64) -> (b: bool)
        ensures
            b == self.can_move(dt),
    {
        let mut i: usize = 0;
        while i < self.entities.len()
            invariant
                i <= self.entities@.len(),
                forall|j: int| 0 <= j < i ==> (#[trigger] self.entities@[j]).can_move(dt),
            decreases self.entities@.len() - i,
        {
            let c: Components = self.entities[i];
            match (c.controller, c.movement, c.transform) {
                (Some(controller), Some(movement), Some(transform)) => {
                    if transform.integrated(&controller.0, &movement, dt).is_none() {
                        assert(!self.entities@[i as int].can_move(dt));
                        return false;
                    }
                },
                _ => {},
            }
            i = i + 1;
        }
        true
    }

    /// Whether every entity can hold its position after `dt` nanoseconds of
    /// movement along `intent`, written into its controller first.
    pub fn movement_fits(&self, intent: &Intent, dt: u64) -> (b: bool)
        ensures
            b == self.can_move_along(*intent, dt),
    {
        let mut i: usize = 0;
        while i < self.entities.len()
            invariant
                i <= self.entities@.len(),
                forall|j: int|
                    0 <= j < i ==> (#[trigger] self.entities@[j]).with_intent(*intent).can_move(dt),
            decreases self.entities@.len() - i,
        {
            let c: Components = self.entities[i];
            match (c.controller, c.movement, c.transform) {
                (Some(_), Some(movement), Some(transform)) => {
                    if transform.integrated(intent, &movement, dt).is_none() {
                        assert(!self.entities@[i as int].with_intent(*intent).can_move(dt));
                        return false;
                    }
                },
                _ => {},
            }
            i = i + 1;
        }
        true
    }

    /// Moves every entity that has a controller, a speed and a position for
    /// `dt` nanoseconds along its intent: `position += speed * intent * dt`.
    pub fn apply_movement(&mut self, dt: u64)
        requires
            old(self).can_move(dt),
        ensures
            final(self).entities@ == old(self).entities@.map_values(|c: Components| c.moved(dt)),
    {
        let mut i: usize = 0;
        while i < self.entities.len()
            invariant
                i <= self.entities@.len(),
                self.entities@.len() == old(self).entities@.len(),
                old(self).can_move(dt),
                forall|j: int| 0 <= j < i ==> self.entities@[j] == old(self).entities@[j].moved(dt),
                forall|j: int|
                    i <= j < self.entities@.len() ==> self.entities@[j] == old(self).entities@[j],
            decreases self.entities@.len() - i,
        {
            let mut c: Components = self.entities[i];
            assert(old(self).entities@[i as int].can_move(dt));
            match (c.controller, c.movement, c.transform) {
                (Some(controller), Some(movement), Some(transform)) => {
                    let mut moved = transform;
                    moved.integrate(&controller.0, &movement, dt);
                    c.transform = Some(moved);
                    self.entities.set(i, c);
                },
                _ => {},
            }
            i = i + 1;
        }
    }

    /// Turns the sprite of every entity that has a controller towards the
    /// horizontal part of its intent, and leaves it where there is none.
    pub fn update_facing(&mut self)
        ensures
            final(self).entities@ == old(self).entities@.map_values(|c: Components| c.faced()),
    {
        let mut i: usize = 0;
        while i < self.entities.len()
            invariant
                i <= self.entities@.len(),
                self.entities@.len() == old(self).entities@.len(),
                forall|j: int| 0 <= j < i ==> self.entities@[j] == old(self).entities@[j].faced(),
                forall|j: int|
                    i <= j < self.entities@.len() ==> self.entities@[j] == old(self).entities@[j],
            decreases self.entities@.len() - i,
        {
            let mut c: Components = self.entities[i];
            match (c.controller, c.sprite) {
                (Some(controller), Some(sprite)) => {
                    let mut turned = sprite;
                    turned.face(&controller.0);
                    c.sprite = Some(turned);
                    self.entities.set(i, c);
                },
                _ => {},
            }
            i = i + 1;
        }
    }

    /// Advances every step cadence by `dt` nanoseconds, whether its entity
    /// moves or not.
    pub fn tick_step_sfx(&mut self, dt: u64)
        ensures
            final(self).entities@ == old(self).entities@.map_values(
                |c: Components| c.cadence_ticked(dt),
            ),
    {
        let mut i: usize = 0;
        while i < self.entities.len()
            invariant
                i <= self.entities@.len(),
                self.entities@.len() == old(self).entities@.len(),
                forall|j: int|
                    0 <= j < i ==> self.entities@[j] == old(self).entities@[j].cadence_ticked(dt),
                forall|j: int|
                    i <= j < self.entities@.len() ==> self.entities@[j] == old(self).entities@[j],
            decreases self.entities@.len() - i,
        {
            let mut c: Components = self.entities[i];
            match c.step_sfx {
                Some(step) => {
                    let mut ticked = step;
                    ticked.tick(dt);
                    c.step_sfx = Some(ticked);
                    self.entities.set(i, c);
                },
                None => {},
            }
            i = i + 1;
        }
    }

    /// One step sound for every entity that wants to move and whose cadence
    /// completed a run on this tick.
    pub fn trigger_step_sfx(&self) -> (events: Vec<Sfx>)
        ensures
            events@.len() == step_count(self.entities@),
            forall|k: int| 0 <= k < events@.len() ==> events@[k] == Sfx::Step,
    {
        let mut events: Vec<Sfx> = Vec::new();
        let mut i: usize = 0;
        while i < self.entities.len()
            invariant
                i <= self.entities@.len(),
                events@.len() <= i,
                events@.len() == step_count(self.entities@.take(i as int)),
                forall|k: int| 0 <= k < events@.len() ==> events@[k] == Sfx::Step,
            decreases self.entities@.len() - i,
        {
            let c: Components = self.entities[i];
            assert(self.entities@.take(i + 1).drop_last() == self.entities@.take(i as int));
            match (c.controller, c.step_sfx) {
                (Some(controller), Some(step)) => {
                    if step.triggers(&controller) {
                        events.push(Sfx::Step);
                    }
                },
                _ => {},
            }
            i = i + 1;
        }
        assert(self.entities@.take(i as int) == self.entities@);
        events
    }

    /// One tick over every entity, each pass over all of them before the
    /// next: the intent from `keys`, integration, facing, the step cadences,
    /// and the step sounds that are due.
    pub fn update(&mut self, keys: &DirectionKeys, dt: u64) -> (events: Vec<Sfx>)
        requires
            old(self).can_move_along(intent_of(*keys), dt),
        ensures
            final(self).entities@ == old(self).entities@.map_values(
                |c: Components| c.updated(intent_of(*keys), dt),
            ),
            events@.len() == step_count(final(self).entities@),
            forall|k: int| 0 <= k < events@.len() ==> events@[k] == Sfx::Step,
    {
        self.record_movement_controller(keys);
        self.apply_movement(dt);
        self.update_facing();
        self.tick_step_sfx(dt);
        self.trigger_step_sfx()
    }

    /// One tick like `update`, where every position can be held after it.
    /// Where one cannot, nothing is changed and `None` is returned.
    pub fn try_update(&mut self, keys: &DirectionKeys, dt: u64) -> (events: Option<Vec<Sfx>>)
        ensures
            events is Some <==> old(self).can_move_along(intent_of(*keys), dt),
            events is None ==> final(self).entities@ == old(self).entities@,
            events matches Some(sounds) ==> {
                &&& final(self).entities@ == old(self).entities@.map_values(
                    |c: Components| c.updated(intent_of(*keys), dt),
                )
                &&& sounds@.len() == step_count(final(self).entities@)
                &&& forall|k: int| 0 <= k < sounds@.len() ==> sounds@[k] == Sfx::Step
            },
    {
        let intent = directional_intent(keys);
        if self.movement_fits(&intent, dt) {
            Some(self.update(keys, dt))
        } else {
            None
        }
    }
}

} // verus!
