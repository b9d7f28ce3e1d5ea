use game_core::movement::{
    directional_intent, Coordinate, DirectionKeys, Intent, Movement, MovementController, Sprite,
    StepSfx, Transform,
};
use game_core::spawn::Player;
use game_core::timer::{Countdown, CountdownMode};
use game_core::world::{Components, Sfx, World};

const NONE: DirectionKeys = DirectionKeys {
    up: false,
    up_alt: false,
    down: false,
    down_alt: false,
    left: false,
    left_alt: false,
    right: false,
    right_alt: false,
};

fn at(x: i64, y: i64) -> Transform {
    Transform {
        x: Coordinate { axial: x, diagonal: 0 },
        y: Coordinate { axial: y, diagonal: 0 },
        depth: 0,
        scale: 1,
    }
}

fn walker(speed: u32, cadence: u64) -> Components {
    let mut c = Components::empty();
    c.transform = Some(at(0, 0));
    c.sprite = Some(Sprite { flip_x: false });
    c.controller = Some(MovementController::default());
    c.movement = Some(Movement { speed });
    c.step_sfx = Some(StepSfx(Countdown::new(cadence, CountdownMode::Repeating)));
    c
}

fn intent_parts(c: &Components) -> Option<(i8, i8, u8)> {
    c.controller.map(|m| (m.0.x(), m.0.y(), m.0.norm_sq()))
}

#[test]
fn empty_components_have_no_part() {
    let c = Components::empty();
    assert!(c.name.is_none());
    assert!(c.parent.is_none());
    assert!(c.level.is_none());
    assert!(c.player.is_none());
    assert!(c.transform.is_none());
    assert!(c.sprite.is_none());
    assert!(c.controller.is_none());
    assert!(c.movement.is_none());
    assert!(c.step_sfx.is_none());
    assert_eq!(World::new().entities.len(), 0);
}

#[test]
fn intent_is_written_to_every_controller() {
    let mut world = World::new();
    world.entities.push(walker(1, 10));
    world.entities.push(Components::empty());
    world.entities.push(walker(2, 20));
    let keys = DirectionKeys { up: true, right_alt: true, ..NONE };
    world.record_movement_controller(&keys);
    assert_eq!(intent_parts(&world.entities[0]), Some((1, 1, 2)));
    assert_eq!(intent_parts(&world.entities[1]), None);
    assert_eq!(intent_parts(&world.entities[2]), Some((1, 1, 2)));
    world.record_movement_controller(&NONE);
    assert_eq!(intent_parts(&world.entities[0]), Some((0, 0, 1)));
    assert_eq!(intent_parts(&world.entities[2]), Some((0, 0, 1)));
}

#[test]
fn player_input_is_written_to_every_controller() {
    let mut world = World::new();
    let mut player = walker(1, 10);
    player.player = Some(Player);
    world.entities.push(player);
    world.entities.push(walker(2, 20));
    let mut bare_player = Components::empty();
    bare_player.player = Some(Player);
    world.entities.push(bare_player);
    let keys = DirectionKeys { left: true, ..NONE };
    world.record_player_directional_input(&keys);
    assert_eq!(intent_parts(&world.entities[0]), Some((-1, 0, 1)));
    assert_eq!(intent_parts(&world.entities[1]), Some((-1, 0, 1)));
    assert_eq!(intent_parts(&world.entities[2]), None);
    world.record_player_directional_input(&NONE);
    assert_eq!(intent_parts(&world.entities[0]), Some((0, 0, 1)));
    assert_eq!(intent_parts(&world.entities[1]), Some((0, 0, 1)));
    assert_eq!(intent_parts(&world.entities[2]), None);
}

#[test]
fn movement_is_applied_to_entities_with_all_three_parts() {
    let mut world = World::new();
    world.entities.push(walker(10, 1_000));
    let mut no_speed = walker(10, 1_000);
    no_speed.movement = None;
    world.entities.push(no_speed);
    let mut no_controller = walker(10, 1_000);
    no_controller.controller = None;
    world.entities.push(no_controller);
    let mut no_place = walker(10, 1_000);
    no_place.transform = None;
    world.entities.push(no_place);
    world.record_movement_controller(&DirectionKeys { right: true, ..NONE });
    world.apply_movement(1_000);
    assert_eq!(world.entities[0].transform.map(|t| t.x.axial), Some(10_000));
    assert_eq!(world.entities[1].transform.map(|t| t.x.axial), Some(0));
    assert_eq!(world.entities[2].transform.map(|t| t.x.axial), Some(0));
    assert!(world.entities[3].transform.is_none());
}

#[test]
fn movement_fits_tells_when_a_position_would_not_be_held() {
    let mut world = World::new();
    let mut far = walker(1, 1_000);
    far.transform = Some(at(i64::MAX - 5, 0));
    world.entities.push(walker(1, 1_000));
    world.entities.push(far);
    let right = directional_intent(&DirectionKeys { right: true, ..NONE });
    let left = directional_intent(&DirectionKeys { left: true, ..NONE });
    assert!(world.movement_fits(&right, 5));
    assert!(!world.movement_fits(&right, 6));
    assert!(world.movement_fits(&left, 6));
    assert!(world.movement_fits(&Intent::zero(), u64::MAX));
    world.entities[1].movement = None;
    assert!(world.movement_fits(&right, 6));
}

#[test]
fn can_move_goes_by_the_present_intents() {
    let mut world = World::new();
    let mut far = walker(1, 1_000);
    far.transform = Some(at(0, i64::MIN + 5));
    world.entities.push(far);
    assert!(world.can_move(u64::MAX));
    world.record_movement_controller(&DirectionKeys { down: true, ..NONE });
    assert!(world.can_move(5));
    assert!(!world.can_move(6));
    world.apply_movement(5);
    assert_eq!(world.entities[0].transform.map(|t| t.y.axial), Some(i64::MIN));
    assert!(world.can_move(0));
    assert!(!world.can_move(1));
}

#[test]
fn facing_is_updated_for_entities_with_controller_and_sprite() {
    let mut world = World::new();
    world.entities.push(walker(1, 10));
    let mut no_controller = walker(1, 10);
    no_controller.controller = None;
    world.entities.push(no_controller);
    world.record_movement_controller(&DirectionKeys { left_alt: true, ..NONE });
    world.update_facing();
    assert_eq!(world.entities[0].sprite.map(|s| s.flip_x), Some(true));
    assert_eq!(world.entities[1].sprite.map(|s| s.flip_x), Some(false));
    world.record_movement_controller(&NONE);
    world.update_facing();
    assert_eq!(world.entities[0].sprite.map(|s| s.flip_x), Some(true));
}

#[test]
fn step_cadences_tick_whether_moving_or_not() {
    let mut world = World::new();
    world.entities.push(walker(1, 1_000));
    let mut no_controller = walker(1, 1_000);
    no_controller.controller = None;
    world.entities.push(no_controller);
    world.entities.push(Components::empty());
    world.tick_step_sfx(400);
    assert_eq!(world.entities[0].step_sfx.map(|s| s.0.elapsed), Some(400));
    assert_eq!(world.entities[1].step_sfx.map(|s| s.0.elapsed), Some(400));
    assert!(world.entities[2].step_sfx.is_none());
}

#[test]
fn one_step_event_for_each_moving_entity_whose_cadence_completed() {
    let mut world = World::new();
    world.entities.push(walker(1, 1_000));
    world.entities.push(walker(1, 3_000));
    world.entities.push(walker(1, 1_000));
    let mut no_controller = walker(1, 1_000);
    no_controller.controller = None;
    world.entities.push(no_controller);
    world.record_movement_controller(&DirectionKeys { up: true, ..NONE });
    world.tick_step_sfx(1_000);
    let events = world.trigger_step_sfx();
    assert_eq!(events, vec![Sfx::Step, Sfx::Step]);
    world.record_movement_controller(&NONE);
    world.tick_step_sfx(1_000);
    assert!(world.trigger_step_sfx().is_empty());
    world.record_movement_controller(&DirectionKeys { up: true, ..NONE });
    world.tick_step_sfx(1_000);
    assert_eq!(world.trigger_step_sfx().len(), 3);
}

#[test]
fn update_runs_the_passes_in_order() {
    let mut world = World::new();
    world.entities.push(walker(420, 500_000_000));
    let keys = DirectionKeys { up: true, left: true, ..NONE };
    let mut sounds: usize = 0;
    for _ in 0..60 {
        sounds += world.update(&keys, 16_000_000).len();
    }
    let c = world.entities[0];
    assert_eq!(intent_parts(&c), Some((-1, 1, 2)));
    assert_eq!(c.transform.map(|t| (t.x.axial, t.x.diagonal)), Some((0, -403_200_000_000)));
    assert_eq!(c.transform.map(|t| (t.y.axial, t.y.diagonal)), Some((0, 403_200_000_000)));
    assert_eq!(c.sprite.map(|s| s.flip_x), Some(true));
    assert_eq!(c.step_sfx.map(|s| s.0.elapsed), Some(460_000_000));
    assert_eq!(sounds, 1);
    let events = world.update(&NONE, 40_000_000);
    assert!(events.is_empty());
    let c = world.entities[0];
    assert_eq!(c.step_sfx.map(|s| (s.0.elapsed, s.0.completions)), Some((0, 1)));
    assert_eq!(c.transform.map(|t| (t.x.axial, t.x.diagonal)), Some((0, -403_200_000_000)));
    assert_eq!(c.sprite.map(|s| s.flip_x), Some(true));
}

#[test]
fn a_long_idle_then_one_moving_tick_can_step_at_once() {
    let mut world = World::new();
    world.entities.push(walker(1, 500_000_000));
    assert!(world.update(&NONE, 499_000_000).is_empty());
    let events = world.update(&DirectionKeys { right: true, ..NONE }, 1_000_000);
    assert_eq!(events, vec![Sfx::Step]);
}

#[test]
fn try_update_changes_nothing_where_a_position_cannot_be_held() {
    let mut world = World::new();
    let mut far = walker(1, 1_000);
    far.transform = Some(at(i64::MAX - 5, 0));
    world.entities.push(far);
    world.entities.push(walker(1, 1_000));
    let right = DirectionKeys { right: true, ..NONE };
    assert!(world.try_update(&right, 6).is_none());
    assert_eq!(intent_parts(&world.entities[0]), Some((0, 0, 1)));
    assert_eq!(world.entities[0].step_sfx.map(|s| s.0.elapsed), Some(0));
    assert_eq!(world.entities[1].transform.map(|t| t.x.axial), Some(0));
    let events = world.try_update(&right, 5);
    assert_eq!(events, Some(vec![]));
    assert_eq!(world.entities[0].transform.map(|t| t.x.axial), Some(i64::MAX));
    assert_eq!(world.entities[1].transform.map(|t| t.x.axial), Some(5));
    assert_eq!(world.entities[1].step_sfx.map(|s| s.0.elapsed), Some(5));
    let left = DirectionKeys { left: true, ..NONE };
    assert_eq!(world.try_update(&left, 995), Some(vec![Sfx::Step, Sfx::Step]));
    assert_eq!(world.entities[1].sprite.map(|s| s.flip_x), Some(true));
}

#[test]
fn two_movement_passes_end_where_one_pass_ends() {
    let keys = DirectionKeys { down: true, right: true, ..NONE };
    let mut split = World::new();
    split.entities.push(walker(420, 1_000));
    split.entities.push(walker(3, 1_000));
    let mut whole = World::new();
    whole.entities.push(walker(420, 1_000));
    whole.entities.push(walker(3, 1_000));
    split.record_movement_controller(&keys);
    whole.record_movement_controller(&keys);
    split.apply_movement(16_666_667);
    split.apply_movement(33_333_333);
    whole.apply_movement(50_000_000);
    for index in 0..2 {
        let a = split.entities[index].transform.map(|t| (t.x.axial, t.x.diagonal, t.y.axial, t.y.diagonal));
        let b = whole.entities[index].transform.map(|t| (t.x.axial, t.x.diagonal, t.y.axial, t.y.diagonal));
        assert_eq!(a, b);
    }
    assert_eq!(
        whole.entities[0].transform.map(|t| (t.x.diagonal, t.y.diagonal)),
        Some((21_000_000_000, -21_000_000_000))
    );
}
