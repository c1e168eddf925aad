use first_person_hopper::clock::Countdown;
use first_person_hopper::ingame::animations::bullet_case_despawn;
use first_person_hopper::ingame::animations::contact_animation;
use first_person_hopper::ingame::animations::contact_spawn;
use first_person_hopper::ingame::animations::fire_animation;
use first_person_hopper::ingame::animations::fire_spawn;
use first_person_hopper::ingame::animations::BulletCase;
use first_person_hopper::ingame::animations::CasingLaunch;
use first_person_hopper::ingame::animations::CASING_RISE;
use first_person_hopper::ingame::animations::CASING_SPEED_MAX;
use first_person_hopper::ingame::animations::CASING_SPEED_MIN;
use first_person_hopper::ingame::animations::CASING_SPIN_MAX;
use first_person_hopper::ingame::animations::CASING_SPIN_MIN;
use first_person_hopper::ingame::animations::CONTACT_FRAME;
use first_person_hopper::ingame::animations::FIRE_FRAME;
use first_person_hopper::ingame::animations::FLASH_LIFETIME;
use first_person_hopper::ingame::AnimationState;
use first_person_hopper::ingame::SpriteAnimation;
use first_person_hopper::stage::EntityKind;
use first_person_hopper::stage::Stage;

fn kinds(stage: &Stage) -> Vec<EntityKind> {
    (0..stage.len()).map(|i| stage.get(i).unwrap()).collect()
}

#[test]
fn the_effects_constants() {
    assert_eq!(FLASH_LIFETIME, 200_000_000);
    assert_eq!(CONTACT_FRAME, 62_500_000);
    assert_eq!(FIRE_FRAME, 41_666_667);
    assert_eq!(CASING_SPEED_MIN, 4500);
    assert_eq!(CASING_SPEED_MAX, 5500);
    assert_eq!(CASING_RISE, 1000);
    assert_eq!(CASING_SPIN_MIN, -15);
    assert_eq!(CASING_SPIN_MAX, -5);
}

#[test]
fn an_animation_shows_its_cells_in_turn_and_starts_again() {
    let animation = SpriteAnimation::from_indices(3, 5, 100).unwrap();
    let mut state = AnimationState::new();
    assert_eq!(state.update(&animation, 0), 3);
    assert_eq!(state.update(&animation, 99), 3);
    assert_eq!(state.update(&animation, 1), 4);
    assert_eq!(state.update(&animation, 100), 5);
    assert_eq!(state.update(&animation, 100), 3);
    assert_eq!(state.update(&animation, 250), 5);
    assert_eq!(state.update(&animation, 50), 3);
}

#[test]
fn an_animation_of_one_cell_shows_it_always() {
    let animation = SpriteAnimation::from_indices(9, 9, 1).unwrap();
    let mut state = AnimationState::new();
    for delta in [0, 1, 2, 1000] {
        assert_eq!(state.update(&animation, delta), 9);
    }
}

#[test]
fn an_animation_played_once_stops_at_its_last_cell() {
    let animation = SpriteAnimation::from_indices(0, 2, 10).unwrap().once();
    let mut state = AnimationState::new();
    assert_eq!(state.update(&animation, 10), 1);
    assert_eq!(state.update(&animation, 10), 2);
    assert_eq!(state.update(&animation, 10), 2);
    assert_eq!(state.update(&animation, 1000), 2);
}

#[test]
fn a_reset_state_starts_again() {
    let animation = SpriteAnimation::from_indices(0, 4, 10).unwrap();
    let mut state = AnimationState::new();
    assert_eq!(state.update(&animation, 35), 3);
    state.reset();
    assert_eq!(state.update(&animation, 0), 0);
    assert_eq!(state.update(&animation, 10), 1);
}

#[test]
fn a_spark_goes_on_stage_and_plays_once() {
    let mut stage = Stage::new();
    stage.spawn(EntityKind::M4);
    let mut spark = contact_spawn(&mut stage);
    assert_eq!(kinds(&stage), vec![EntityKind::M4, EntityKind::Contact]);
    let mut cells = Vec::new();
    for _ in 0..7 {
        cells.push(contact_animation(
            CONTACT_FRAME,
            &mut spark.animation_state,
            &spark.animation,
        ));
    }
    assert_eq!(cells, vec![1, 2, 3, 4, 4, 4, 4]);
}

#[test]
fn a_spark_changes_cell_every_sixteenth_of_a_second() {
    let mut stage = Stage::new();
    let mut spark = contact_spawn(&mut stage);
    assert_eq!(
        contact_animation(62_499_999, &mut spark.animation_state, &spark.animation),
        0
    );
    assert_eq!(
        contact_animation(1, &mut spark.animation_state, &spark.animation),
        1
    );
}

#[test]
fn a_shot_puts_flash_and_casing_on_stage() {
    let mut stage = Stage::new();
    stage.spawn(EntityKind::M4);
    let mut effects = fire_spawn(&mut stage);
    assert_eq!(
        kinds(&stage),
        vec![EntityKind::M4, EntityKind::Fire, EntityKind::BulletCase]
    );
    assert_eq!(effects.flash.lifetime.remaining(), 200_000_000);
    let mut cells = Vec::new();
    for _ in 0..4 {
        cells.push(fire_animation(
            FIRE_FRAME,
            &mut effects.animation_state,
            &effects.animation,
        ));
    }
    assert_eq!(cells, vec![1, 2, 2, 2]);
}

#[test]
fn a_flash_changes_cell_every_twenty_fourth_of_a_second() {
    let mut stage = Stage::new();
    let mut effects = fire_spawn(&mut stage);
    assert_eq!(
        fire_animation(41_666_666, &mut effects.animation_state, &effects.animation),
        0
    );
    assert_eq!(
        fire_animation(1, &mut effects.animation_state, &effects.animation),
        1
    );
}

#[test]
fn a_casing_takes_its_launch_from_the_draws() {
    assert_eq!(
        CasingLaunch::from_draws(5000, -7),
        CasingLaunch {
            linvel_x: 5000,
            linvel_y: 1000,
            angvel: -7
        }
    );
    assert_eq!(
        CasingLaunch::from_draws(-1, 2),
        CasingLaunch {
            linvel_x: -1,
            linvel_y: 1000,
            angvel: 2
        }
    );
}

#[test]
fn casings_fly_off_within_bounds() {
    let mut stage = Stage::new();
    for _ in 0..200 {
        let casing = fire_spawn(&mut stage).casing;
        assert!((4500..=5500).contains(&casing.linvel_x));
        assert_eq!(casing.linvel_y, 1000);
        assert!((-15..=-5).contains(&casing.angvel));
    }
    assert_eq!(stage.count(EntityKind::Fire), 200);
    assert_eq!(stage.count(EntityKind::BulletCase), 200);
}

#[test]
fn the_draws_of_a_casing_are_not_its_bounds() {
    let mut stage = Stage::new();
    let casings: Vec<CasingLaunch> = (0..200).map(|_| fire_spawn(&mut stage).casing).collect();
    assert!(casings.iter().any(|c| c.linvel_x != CASING_SPEED_MIN));
    assert!(casings.iter().any(|c| c.linvel_x != CASING_SPEED_MAX));
    assert!(casings.iter().any(|c| c.angvel != CASING_SPIN_MIN));
    assert!(casings.iter().any(|c| c.angvel != CASING_SPIN_MAX));
    assert!(casings.iter().any(|c| c.linvel_x != casings[0].linvel_x));
    assert!(casings.iter().any(|c| c.angvel != casings[0].angvel));
}

#[test]
fn a_flash_leaves_when_its_time_is_up() {
    let mut stage = Stage::new();
    let mut first = fire_spawn(&mut stage).flash;
    let mut second = fire_spawn(&mut stage).flash;
    assert!(!bullet_case_despawn(199_999_999, &mut first, &mut stage));
    assert_eq!(first.lifetime.remaining(), 1);
    assert_eq!(stage.count(EntityKind::Fire), 2);
    assert!(!bullet_case_despawn(0, &mut first, &mut stage));
    assert!(bullet_case_despawn(1, &mut first, &mut stage));
    assert_eq!(
        kinds(&stage),
        vec![
            EntityKind::BulletCase,
            EntityKind::Fire,
            EntityKind::BulletCase
        ]
    );
    assert!(bullet_case_despawn(u64::MAX, &mut second, &mut stage));
    assert_eq!(
        kinds(&stage),
        vec![EntityKind::BulletCase, EntityKind::BulletCase]
    );
}

#[test]
fn a_flash_whose_time_is_up_takes_nothing_else_off_the_stage() {
    let mut stage = Stage::new();
    stage.spawn(EntityKind::M4);
    let mut flash = BulletCase {
        lifetime: Countdown::from_nanos(5),
    };
    assert!(bullet_case_despawn(5, &mut flash, &mut stage));
    assert_eq!(kinds(&stage), vec![EntityKind::M4]);
}

#[test]
fn there_is_no_animation_without_cells_or_without_time() {
    assert!(SpriteAnimation::from_indices(1, 0, 10).is_none());
    assert!(SpriteAnimation::from_indices(5, 4, 10).is_none());
    assert!(SpriteAnimation::from_indices(0, 4, 0).is_none());
    assert!(SpriteAnimation::from_indices(3, 2, 0).is_none());
    assert!(SpriteAnimation::from_indices(0, 0, 1).is_some());
    assert!(SpriteAnimation::from_indices(usize::MAX, usize::MAX, u64::MAX).is_some());
}

#[test]
fn a_new_state_shows_cell_zero() {
    let state = AnimationState::new();
    assert_eq!(state.frame_index(), 0);
    assert_eq!(state.frame_index(), benimator::State::new().frame_index());
}

#[test]
fn a_state_shows_the_cell_that_its_last_update_came_to() {
    let animation = SpriteAnimation::from_indices(3, 5, 100).unwrap();
    let mut state = AnimationState::new();
    for delta in [0, 99, 1, 100, 100, 250, 50] {
        let cell = state.update(&animation, delta);
        assert_eq!(state.frame_index(), cell);
    }
    assert_eq!(state.frame_index(), 3);
}

#[test]
fn a_reset_state_shows_cell_zero_again() {
    let animation = SpriteAnimation::from_indices(3, 5, 100).unwrap();
    let mut state = AnimationState::new();
    assert_eq!(state.update(&animation, 150), 4);
    assert_eq!(state.frame_index(), 4);
    state.reset();
    assert_eq!(state.frame_index(), 0);
    assert_eq!(state.update(&animation, 0), 3);
    assert_eq!(state.update(&animation, 150), 4);
}

#[test]
fn the_effects_of_a_shot_start_at_cell_zero() {
    let mut stage = Stage::new();
    assert_eq!(fire_spawn(&mut stage).animation_state.frame_index(), 0);
    assert_eq!(contact_spawn(&mut stage).animation_state.frame_index(), 0);
}
