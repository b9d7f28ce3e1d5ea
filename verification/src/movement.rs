//! Movement of one entity: intent from key state, integration of the
//! position, facing, and the cadence of step sounds.

use crate::timer::total_time;
use crate::timer::Countdown;
use crate::timer::CountdownMode;
use vstd::prelude::*;

verus! {

/// Pressed state of the four directions, each with two bindings, as read once
/// per tick. A key that is not reported counts as not pressed.
#[derive(Clone, Copy, Debug)]
pub struct DirectionKeys {
    pub up: bool,
    pub up_alt: bool,
    pub down: bool,
    pub down_alt: bool,
    pub left: bool,
    pub left_alt: bool,
    pub right: bool,
    pub right_alt: bool,
}

/// Signed contribution of one axis: one step for the positive side, one back
/// for the negative side.
pub open spec fn axis(positive: bool, negative: bool) -> int {
    (if positive { 1int } else { 0int }) - (if negative { 1int } else { 0int })
}

/// The square of a component in `-1..=1` is 0 or 1.
proof fn lemma_component_square(v: int)
    requires
        -1 <= v <= 1,
    ensures
        v * v == if v == 0 { 0int } else { 1int },
{
    assert(v * v == if v == 0 { 0int } else { 1int }) by (nonlinear_arith)
        requires
            -1 <= v <= 1,
    ;
}

impl DirectionKeys {
    /// Net horizontal direction: right is positive.
    pub open spec fn horizontal(self) -> int {
        axis(self.right || self.right_alt, self.left || self.left_alt)
    }

    /// Net vertical direction: up is positive.
    pub open spec fn vertical(self) -> int {
        axis(self.up || self.up_alt, self.down || self.down_alt)
    }
}

/// A direction of movement: the vector `(x, y) / √norm_sq`.
///
/// Held exactly: the components are whole numbers and the length they are
/// divided by is kept as its square. Every value is the zero vector or has
/// length one.
#[derive(Clone, Copy, Debug)]
pub struct Intent {
    x: i8,
    y: i8,
    norm_sq: u8,
}

impl Intent {
    #[verifier::type_invariant]
    spec fn well_formed(self) -> bool {
        self.valid()
    }

    /// What holds of every intent: components in `-1..=1`, divided by their
    /// own length, or by one where they are zero.
    pub closed spec fn valid(self) -> bool {
        &&& -1 <= self.x <= 1
        &&& -1 <= self.y <= 1
        &&& self.norm_sq == if self.x == 0 && self.y == 0 {
            1int
        } else {
            self.x * self.x + self.y * self.y
        }
    }

    /// Horizontal component before division.
    pub closed spec fn spec_x(&self) -> i8 {
        self.x
    }

    /// Vertical component before division.
    pub closed spec fn spec_y(&self) -> i8 {
        self.y
    }

    /// Square of the length that the components are divided by.
    pub closed spec fn spec_norm_sq(&self) -> u8 {
        self.norm_sq
    }

    /// The zero vector: no movement wanted.
    pub open spec fn spec_is_zero(&self) -> bool {
        self.x() == 0 && self.y() == 0
    }

    /// Length one: the squares of the components add up to the square they
    /// are divided by.
    pub open spec fn is_unit(self) -> bool {
        self.norm_sq() > 0 && self.x() * self.x() + self.y() * self.y() == self.norm_sq()
    }

    /// Horizontal component before division.
    #[verifier::when_used_as_spec(spec_x)]
    pub fn x(&self) -> (v: i8)
        ensures
            v == self.x(),
            -1 <= v <= 1,
    {
        proof {
            use_type_invariant(self);
        }
        self.x
    }

    /// Vertical component before division.
    #[verifier::when_used_as_spec(spec_y)]
    pub fn y(&self) -> (v: i8)
        ensures
            v == self.y(),
            -1 <= v <= 1,
    {
        proof {
            use_type_invariant(self);
        }
        self.y
    }

    /// Square of the length that the components are divided by: 1 or 2.
    #[verifier::when_used_as_spec(spec_norm_sq)]
    pub fn norm_sq(&self) -> (v: u8)
        ensures
            v == self.norm_sq(),
            v == 1 || v == 2,
            self.valid(),
    {
        proof {
            use_type_invariant(self);
            lemma_component_square(self.x as int);
            lemma_component_square(self.y as int);
        }
        self.norm_sq
    }

    /// The zero vector.
    pub closed spec fn spec_zero() -> Intent {
        Intent { x: 0, y: 0, norm_sq: 1 }
    }

    /// The zero vector.
    #[verifier::when_used_as_spec(spec_zero)]
    pub fn zero() -> (i: Intent)
        ensures
            i == Intent::zero(),
            i.is_zero(),
            i.norm_sq() == 1,
            i.valid(),
    {
        Intent { x: 0, y: 0, norm_sq: 1 }
    }

    /// The zero vector is zero, is divided by one, and is a valid intent.
    pub proof fn zero_is_zero()
        ensures
            Intent::zero().is_zero(),
            Intent::zero().x() == 0,
            Intent::zero().y() == 0,
            Intent::zero().norm_sq() == 1,
            Intent::zero().valid(),
            !Intent::zero().is_unit(),
    {
    }

    /// Whether this is the zero vector.
    #[verifier::when_used_as_spec(spec_is_zero)]
    pub fn is_zero(&self) -> (b: bool)
        ensures
            b == self.is_zero(),
    {
        self.x == 0 && self.y == 0
    }

    /// Every valid intent is the zero vector or has length one, and never
    /// both.
    pub proof fn unit_or_zero(self)
        requires
            self.valid(),
        ensures
            self.is_unit() != self.is_zero(),
            self.norm_sq() == 1 || self.norm_sq() == 2,
            -1 <= self.x() <= 1,
            -1 <= self.y() <= 1,
    {
        lemma_component_square(self.x as int);
        lemma_component_square(self.y as int);
    }
}

/// The intent that `keys` ask for: the net direction on each axis, divided
/// by its length where that is not zero.
pub closed spec fn intent_of(keys: DirectionKeys) -> Intent {
    let x = keys.horizontal();
    let y = keys.vertical();
    Intent {
        x: x as i8,
        y: y as i8,
        norm_sq: if x == 0 && y == 0 {
            1u8
        } else {
            (x * x + y * y) as u8
        },
    }
}

/// Whatever keys are pressed, the intent they ask for is the zero vector or
/// has length one: zero exactly where no net direction is left on either
/// axis.
pub proof fn intent_of_keys_is_unit_or_zero(keys: DirectionKeys)
    ensures
        intent_of(keys).valid(),
        intent_of(keys).x() == keys.horizontal(),
        intent_of(keys).y() == keys.vertical(),
        intent_of(keys).is_zero() <==> keys.horizontal() == 0 && keys.vertical() == 0,
        intent_of(keys).is_unit() <==> !intent_of(keys).is_zero(),
{
    lemma_component_square(keys.horizontal());
    lemma_component_square(keys.vertical());
}

/// The intent that the pressed keys ask for: the sum of the signed
/// directions per axis, brought to length one. Opposing keys cancel; with no
/// net direction the intent is zero.
pub fn directional_intent(keys: &DirectionKeys) -> (intent: Intent)
    ensures
        intent == intent_of(*keys),
        intent.valid(),
        intent.x() == keys.horizontal(),
        intent.y() == keys.vertical(),
        intent.is_zero() <==> keys.horizontal() == 0 && keys.vertical() == 0,
        !intent.is_zero() ==> intent.is_unit(),
        intent.norm_sq() == if intent.is_zero() {
            1int
        } else {
            keys.horizontal() * keys.horizontal() + keys.vertical() * keys.vertical()
        },
{
    let mut x: i8 = 0;
    let mut y: i8 = 0;
    if keys.up || keys.up_alt {
        y = y + 1;
    }
    if keys.down || keys.down_alt {
        y = y - 1;
    }
    if keys.left || keys.left_alt {
        x = x - 1;
    }
    if keys.right || keys.right_alt {
        x = x + 1;
    }
    let norm_sq: u8 = if x != 0 && y != 0 { 2 } else { 1 };
    proof {
        lemma_component_square(x as int);
        lemma_component_square(y as int);
    }
    Intent { x, y, norm_sq }
}

/// The direction in which an entity wants to move. Written anew on every
/// tick, never accumulated.
#[derive(Clone, Copy, Debug)]
pub struct MovementController(pub Intent);

impl Default for MovementController {
    fn default() -> (c: MovementController)
        ensures
            c == MovementController(Intent::zero()),
            c.0.is_zero(),
            c.0.valid(),
    {
        MovementController(Intent::zero())
    }
}

/// How fast an entity moves.
#[derive(Clone, Copy, Debug)]
pub struct Movement {
    /// Units per second.
    pub speed: u32,
}

/// A length along one axis, held exactly as `axial + diagonal / √2`, both
/// parts counted in billionths of a unit.
///
/// Movement along an axis adds to the first part, movement along a diagonal
/// to the second, so that no step is ever rounded.
#[derive(Clone, Copy, Debug)]
pub struct Coordinate {
    pub axial: i64,
    pub diagonal: i64,
}

/// A `Coordinate` without machine limits.
pub struct Offset {
    pub axial: int,
    pub diagonal: int,
}

impl View for Coordinate {
    type V = Offset;

    open spec fn view(&self) -> Offset {
        Offset { axial: self.axial as int, diagonal: self.diagonal as int }
    }
}

impl Offset {
    /// This length after going `distance` along a direction whose component
    /// on this axis is `component / √norm_sq`.
    pub open spec fn shifted(self, component: int, norm_sq: int, distance: int) -> Offset {
        if norm_sq == 2 {
            Offset { diagonal: self.diagonal + component * distance, ..self }
        } else {
            Offset { axial: self.axial + component * distance, ..self }
        }
    }

    /// Whether both parts can be held in a `Coordinate`.
    pub open spec fn fits(self) -> bool {
        &&& i64::MIN <= self.axial <= i64::MAX
        &&& i64::MIN <= self.diagonal <= i64::MAX
    }
}

/// Where an entity is, and how large it is drawn.
#[derive(Clone, Copy, Debug)]
pub struct Transform {
    pub x: Coordinate,
    pub y: Coordinate,
    /// Drawing order. Movement never changes it.
    pub depth: i64,
    pub scale: u32,
}

/// A `Transform` without machine limits.
pub struct Placement {
    pub x: Offset,
    pub y: Offset,
    pub depth: int,
    pub scale: nat,
}

impl View for Transform {
    type V = Placement;

    open spec fn view(&self) -> Placement {
        Placement { x: self.x@, y: self.y@, depth: self.depth as int, scale: self.scale as nat }
    }
}

/// Distance covered at `speed` units per second in `dt` nanoseconds, in
/// billionths of a unit.
pub open spec fn distance(speed: u32, dt: int) -> int {
    speed * dt
}

impl Offset {
    /// The coordinate that holds this length, where it fits.
    pub open spec fn held(self) -> Coordinate {
        Coordinate { axial: self.axial as i64, diagonal: self.diagonal as i64 }
    }
}

impl Placement {
    /// The transform that holds this placement, where it fits.
    pub open spec fn held(self) -> Transform {
        Transform {
            x: self.x.held(),
            y: self.y.held(),
            depth: self.depth as i64,
            scale: self.scale as u32,
        }
    }

    /// This placement after moving for `dt` nanoseconds at `speed` along
    /// `intent`: `position + speed * intent * dt`.
    pub open spec fn moved(self, intent: Intent, speed: u32, dt: int) -> Placement {
        Placement {
            x: self.x.shifted(intent.x() as int, intent.norm_sq() as int, distance(speed, dt)),
            y: self.y.shifted(intent.y() as int, intent.norm_sq() as int, distance(speed, dt)),
            ..self
        }
    }

    /// Whether every part can be held in a `Transform`.
    pub open spec fn fits(self) -> bool {
        self.x.fits() && self.y.fits()
    }
}

/// `value + component * distance`, where it can be held.
fn shift(value: i64, component: i8, distance: u128) -> (r: Option<i64>)
    requires
        -1 <= component <= 1,
        distance <= u32::MAX * u64::MAX,
    ensures
        r is Some <==> i64::MIN <= value + component * distance <= i64::MAX,
        r matches Some(v) ==> v == value + component * distance,
{
    let signed: i128 = if component == 0 {
        0
    } else if component > 0 {
        distance as i128
    } else {
        -(distance as i128)
    };
    assert(signed == component * distance) by (nonlinear_arith)
        requires
            signed == if component == 0 {
                0int
            } else if component > 0 {
                distance as int
            } else {
                -(distance as int)
            },
            -1 <= component <= 1,
    ;
    let sum: i128 = value as i128 + signed;
    if sum < i64::MIN as i128 || sum > i64::MAX as i128 {
        None
    } else {
        Some(sum as i64)
    }
}

impl Coordinate {
    /// This coordinate after going `distance` along `intent`, taking the
    /// horizontal component if `horizontal` and the vertical one if not.
    /// `None` where the result cannot be held.
    fn shifted(&self, intent: &Intent, horizontal: bool, distance: u128) -> (r: Option<Coordinate>)
        requires
            distance <= u32::MAX * u64::MAX,
        ensures
            r is Some <==> self@.shifted(
                (if horizontal { intent.x() } else { intent.y() }) as int,
                intent.norm_sq() as int,
                distance as int,
            ).fits(),
            r matches Some(c) ==> c@ == self@.shifted(
                (if horizontal { intent.x() } else { intent.y() }) as int,
                intent.norm_sq() as int,
                distance as int,
            ),
    {
        let component: i8 = if horizontal { intent.x() } else { intent.y() };
        if intent.norm_sq() == 2 {
            match shift(self.diagonal, component, distance) {
                Some(diagonal) => Some(Coordinate { axial: self.axial, diagonal }),
                None => None,
            }
        } else {
            match shift(self.axial, component, distance) {
                Some(axial) => Some(Coordinate { axial, diagonal: self.diagonal }),
                None => None,
            }
        }
    }
}

impl Transform {
    /// The transform after moving for `dt` nanoseconds at the speed of
    /// `movement` along `intent`, or `None` where that position cannot be
    /// held.
    pub fn integrated(&self, intent: &Intent, movement: &Movement, dt: u64) -> (r: Option<Transform>)
        ensures
            r is Some <==> self@.moved(*intent, movement.speed, dt as int).fits(),
            r matches Some(t) ==> t@ == self@.moved(*intent, movement.speed, dt as int),
            r matches Some(t) ==> t == self@.moved(*intent, movement.speed, dt as int).held(),
    {
        assert(0 <= movement.speed * dt <= u32::MAX * u64::MAX) by (nonlinear_arith)
            requires
                0 <= movement.speed <= u32::MAX,
                0 <= dt <= u64::MAX,
        ;
        let covered: u128 = movement.speed as u128 * dt as u128;
        match (self.x.shifted(intent, true, covered), self.y.shifted(intent, false, covered)) {
            (Some(x), Some(y)) => Some(Transform { x, y, depth: self.depth, scale: self.scale }),
            _ => None,
        }
    }

    /// Moves for `dt` nanoseconds at the speed of `movement` along `intent`:
    /// `position += speed * intent * dt`.
    pub fn integrate(&mut self, intent: &Intent, movement: &Movement, dt: u64)
        requires
            old(self)@.moved(*intent, movement.speed, dt as int).fits(),
        ensures
            final(self)@ == old(self)@.moved(*intent, movement.speed, dt as int),
            *final(self) == old(self)@.moved(*intent, movement.speed, dt as int).held(),
    {
        match self.integrated(intent, movement, dt) {
            Some(t) => {
                *self = t;
            },
            None => {},
        }
    }
}

/// Integration is linear in time and commutes with splitting a tick: with
/// the same intent and speed, moving for `dt1 + dt2` in one step ends where
/// moving for `dt1` and then for `dt2` ends, and moving for no time moves
/// nothing.
pub proof fn integration_commutes_with_splitting(
    start: Placement,
    intent: Intent,
    speed: u32,
    dt1: nat,
    dt2: nat,
)
    ensures
        start.moved(intent, speed, (dt1 + dt2) as int) == start.moved(
            intent,
            speed,
            dt1 as int,
        ).moved(intent, speed, dt2 as int),
        start.moved(intent, speed, 0) == start,
{
    let s = speed as int;
    let a = dt1 as int;
    let b = dt2 as int;
    let x = intent.x() as int;
    let y = intent.y() as int;
    assert(s * (a + b) == s * a + s * b) by (nonlinear_arith);
    assert(x * (s * a + s * b) == x * (s * a) + x * (s * b)) by (nonlinear_arith);
    assert(y * (s * a + s * b) == y * (s * a) + y * (s * b)) by (nonlinear_arith);
    assert(s * 0 == 0 && x * 0 == 0 && y * 0 == 0);
}

impl Offset {
    /// The way from `from` to this length, part by part.
    pub open spec fn minus(self, from: Offset) -> Offset {
        Offset { axial: self.axial - from.axial, diagonal: self.diagonal - from.diagonal }
    }

    /// This length `factor` times over, part by part.
    pub open spec fn times(self, factor: int) -> Offset {
        Offset { axial: factor * self.axial, diagonal: factor * self.diagonal }
    }
}

/// A move goes along the intent and nowhere else: on each axis the way made
/// is the component of the intent times the distance covered, which is never
/// negative, and it is made in the part that belongs to the length of the
/// intent while the other part, the depth and the scale stay.
pub proof fn movement_keeps_to_the_intent(start: Placement, intent: Intent, speed: u32, dt: nat)
    requires
        intent.valid(),
    ensures
        distance(speed, dt as int) >= 0,
        ({
            let end = start.moved(intent, speed, dt as int);
            let way = distance(speed, dt as int);
            &&& end.depth == start.depth
            &&& end.scale == start.scale
            &&& intent.norm_sq() == 1 ==> end.x.minus(start.x) == (Offset {
                axial: intent.x() * way,
                diagonal: 0,
            }) && end.y.minus(start.y) == (Offset { axial: intent.y() * way, diagonal: 0 })
            &&& intent.norm_sq() == 2 ==> end.x.minus(start.x) == (Offset {
                axial: 0,
                diagonal: intent.x() * way,
            }) && end.y.minus(start.y) == (Offset { axial: 0, diagonal: intent.y() * way })
        }),
{
    intent.unit_or_zero();
    assert(speed * dt >= 0) by (nonlinear_arith)
        requires
            speed >= 0,
            dt >= 0,
    ;
}

/// Integration scales with time and with speed: moving `factor` times as
/// long, or `factor` times as fast, makes `factor` times the way on each
/// axis.
pub proof fn integration_scales(
    start: Placement,
    intent: Intent,
    speed: u32,
    dt: nat,
    factor: nat,
)
    ensures
        start.moved(intent, speed, (factor * dt) as int).x.minus(start.x) == start.moved(
            intent,
            speed,
            dt as int,
        ).x.minus(start.x).times(factor as int),
        start.moved(intent, speed, (factor * dt) as int).y.minus(start.y) == start.moved(
            intent,
            speed,
            dt as int,
        ).y.minus(start.y).times(factor as int),
        factor * speed <= u32::MAX ==> start.moved(
            intent,
            (factor * speed) as u32,
            dt as int,
        ).x.minus(start.x) == start.moved(intent, speed, dt as int).x.minus(start.x).times(
            factor as int,
        ),
        factor * speed <= u32::MAX ==> start.moved(
            intent,
            (factor * speed) as u32,
            dt as int,
        ).y.minus(start.y) == start.moved(intent, speed, dt as int).y.minus(start.y).times(
            factor as int,
        ),
{
    let s = speed as int;
    let t = dt as int;
    let k = factor as int;
    let x = intent.x() as int;
    let y = intent.y() as int;
    assert(s * (k * t) == k * (s * t)) by (nonlinear_arith);
    assert((k * s) * t == k * (s * t)) by (nonlinear_arith);
    assert(x * (k * (s * t)) == k * (x * (s * t))) by (nonlinear_arith);
    assert(y * (k * (s * t)) == k * (y * (s * t))) by (nonlinear_arith);
    assert(k * 0 == 0);
}

/// A placement that fits comes back unchanged from the transform that holds
/// it.
pub proof fn held_placement_is_kept(p: Placement)
    requires
        p.fits(),
        i64::MIN <= p.depth <= i64::MAX,
        p.scale <= u32::MAX,
    ensures
        p.held()@ == p,
{
}

/// Whether a sprite is drawn mirrored: facing left.
#[derive(Clone, Copy, Debug)]
pub struct Sprite {
    pub flip_x: bool,
}

/// The facing after an intent with horizontal component `dx`: left for a
/// negative one, right for a positive one, as before where it is zero.
pub open spec fn facing_after(flipped: bool, dx: int) -> bool {
    if dx != 0 {
        dx < 0
    } else {
        flipped
    }
}

/// Facing is sticky: an intent without a horizontal part leaves it as it
/// was, and one with a horizontal part sets it to the sign of that part,
/// whatever it was.
pub proof fn facing_follows_horizontal_sign(flipped: bool, dx: int)
    ensures
        dx == 0 ==> facing_after(flipped, dx) == flipped,
        dx < 0 ==> facing_after(flipped, dx),
        dx > 0 ==> !facing_after(flipped, dx),
{
}

/// Facing flips only on a change of sign: after an intent with horizontal
/// part `first`, which is not zero, an intent `second` flips the facing
/// exactly when its horizontal part has the opposite sign.
pub proof fn facing_flips_only_on_sign_change(flipped: bool, first: int, second: int)
    requires
        first != 0,
    ensures
        facing_after(facing_after(flipped, first), second) != facing_after(flipped, first) <==> (
        first < 0 && second > 0) || (first > 0 && second < 0),
{
}

impl Sprite {
    /// Turns the sprite towards the horizontal direction of `intent`, and
    /// leaves it as it is where there is none.
    pub fn face(&mut self, intent: &Intent)
        ensures
            final(self).flip_x == facing_after(old(self).flip_x, intent.x() as int),
    {
        let dx: i8 = intent.x();
        if dx != 0 {
            self.flip_x = dx < 0;
        }
    }
}

/// Time between two step sounds: a repeating countdown that keeps its own
/// phase, whether the entity moves or not.
#[derive(Clone, Copy, Debug)]
pub struct StepSfx(pub Countdown);

/// Whether a step sounds on this tick: the entity wants to move, and the
/// cadence completed a run on this very tick.
pub open spec fn steps(intent: Intent, cadence: Countdown) -> bool {
    !intent.is_zero() && cadence.fired()
}

/// On how many ticks of a run a step sounds, where tick `k` lasts
/// `deltas[k]` and the entity wants to go along `intents[k]` on it.
pub open spec fn step_sounds(cadence: Countdown, deltas: Seq<u64>, intents: Seq<Intent>) -> nat
    recommends
        deltas.len() == intents.len(),
    decreases deltas.len(),
{
    if deltas.len() == 0 {
        0
    } else {
        step_sounds(cadence, deltas.drop_last(), intents.drop_last()) + if steps(
            intents.last(),
            cadence.after(deltas),
        ) {
            1nat
        } else {
            0nat
        }
    }
}

/// Step sounds come at most once for every whole cadence of time that has
/// passed, and only on ticks on which the cadence fires: over any run of
/// ticks, the sounds times the cadence, plus the time left on the countdown,
/// are no more than the time it started with plus the time of the ticks.
pub proof fn step_sounds_bounded_by_time(cadence: Countdown, deltas: Seq<u64>, intents: Seq<Intent>)
    requires
        deltas.len() == intents.len(),
        cadence.mode == CountdownMode::Repeating,
        cadence.duration > 0,
    ensures
        step_sounds(cadence, deltas, intents) <= cadence.firings(deltas),
        step_sounds(cadence, deltas, intents) * cadence.duration + cadence.after(deltas).elapsed
            <= cadence.elapsed + total_time(deltas),
    decreases deltas.len(),
{
    cadence.firings_bounded_by_time(deltas);
    if deltas.len() > 0 {
        step_sounds_bounded_by_time(cadence, deltas.drop_last(), intents.drop_last());
    }
    let sounds = step_sounds(cadence, deltas, intents) as int;
    let firings = cadence.firings(deltas) as int;
    let d = cadence.duration as int;
    assert(sounds * d <= firings * d) by (nonlinear_arith)
        requires
            0 <= sounds <= firings,
            d > 0,
    ;
}

/// A tick on which the entity does not want to move makes no step sound,
/// even where the cadence fires on it: the count is that of the ticks
/// before.
pub proof fn standing_still_suppresses_step(
    cadence: Countdown,
    deltas: Seq<u64>,
    intents: Seq<Intent>,
)
    requires
        deltas.len() == intents.len(),
        deltas.len() > 0,
        intents.last().is_zero(),
    ensures
        step_sounds(cadence, deltas, intents) == step_sounds(
            cadence,
            deltas.drop_last(),
            intents.drop_last(),
        ),
{
}

impl StepSfx {
    /// Advances the cadence by `delta` nanoseconds.
    pub fn tick(&mut self, delta: u64)
        ensures
            final(self).0 == old(self).0.ticked(delta),
    {
        self.0.tick(delta);
    }

    /// Whether a step sounds on this tick for an entity with `controller`.
    pub fn triggers(&self, controller: &MovementController) -> (b: bool)
        ensures
            b == steps(controller.0, self.0),
    {
        !controller.0.is_zero() && self.0.just_finished()
    }
}

} // verus!
