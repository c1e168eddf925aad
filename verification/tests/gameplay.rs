use first_person_hopper::clock::Countdown;
use first_person_hopper::ingame::gameplay::ball_contact_checker;
use first_person_hopper::ingame::gameplay::ball_movement;
use first_person_hopper::ingame::gameplay::entity_despawner;
use first_person_hopper::ingame::gameplay::gameover_controller;
use first_person_hopper::ingame::gameplay::m4_animation;
use first_person_hopper::ingame::gameplay::m4_firerate_timer;
use first_person_hopper::ingame::gameplay::Jump;
use first_person_hopper::ingame::gameplay::PlayAnimation;
use first_person_hopper::ingame::gameplay::Shot;
use first_person_hopper::ingame::gameplay::DRIFT_MAX;
use first_person_hopper::ingame::gameplay::FLOOR;
use first_person_hopper::ingame::gameplay::LIFT_MAX;
use first_person_hopper::ingame::gameplay::LIFT_MIN;
use first_person_hopper::ingame::gameplay::SPIN_MAX;
use first_person_hopper::ingame::spawn::Ball;
use first_person_hopper::ingame::spawn::EndGameTimer;
use first_person_hopper::ingame::spawn::Round;
use first_person_hopper::ingame::spawn::FIRE_INTERVAL;
use first_person_hopper::ingame::spawn::GRACE_PERIOD;
use first_person_hopper::ingame::spawn::M4;
use first_person_hopper::ingame::spawn::M4_FRAME;
use first_person_hopper::ingame::Scores;
use first_person_hopper::stage::EntityKind;
use first_person_hopper::stage::Stage;

fn fired() -> M4 {
    let mut m4 = M4::new();
    let mut play = PlayAnimation(false);
    assert_eq!(
        ball_contact_checker(true, None, &mut m4, &mut play),
        Shot::Missed
    );
    m4
}

#[test]
fn the_rules_constants() {
    assert_eq!(FIRE_INTERVAL, 200_000_000);
    assert_eq!(GRACE_PERIOD, 500_000_000);
    assert_eq!(FLOOR, -420);
    assert_eq!(LIFT_MIN, 500_000);
    assert_eq!(LIFT_MAX, 900_000);
    assert_eq!(DRIFT_MAX, 500_000);
    assert_eq!(SPIN_MAX, 10_000_000);
}

#[test]
fn countdown_runs_down_and_stops_at_zero() {
    let mut countdown = Countdown::from_nanos(10);
    assert_eq!(countdown.remaining(), 10);
    assert!(!countdown.finished());
    countdown.tick(0);
    assert_eq!(countdown.remaining(), 10);
    countdown.tick(3);
    assert_eq!(countdown.remaining(), 7);
    countdown.tick(7);
    assert_eq!(countdown.remaining(), 0);
    assert!(countdown.finished());
    countdown.tick(u64::MAX);
    assert_eq!(countdown.remaining(), 0);
    let mut long = Countdown::from_nanos(5);
    long.tick(6);
    assert_eq!(long.remaining(), 0);
}

#[test]
fn a_new_weapon_is_ready() {
    let m4 = M4::new();
    assert!(m4.okay_to_shoot());
    assert_eq!(m4.remaining(), 0);
}

#[test]
fn a_ready_weapon_stays_ready_as_time_goes_by() {
    let mut m4 = M4::new();
    m4_firerate_timer(&mut m4, 1_000_000_000);
    assert!(m4.okay_to_shoot());
    assert_eq!(m4.remaining(), 0);
}

#[test]
fn firing_starts_the_full_interval() {
    let m4 = fired();
    assert!(!m4.okay_to_shoot());
    assert_eq!(m4.remaining(), 200_000_000);
}

#[test]
fn the_weapon_cools_for_exactly_the_interval() {
    let mut m4 = fired();
    m4_firerate_timer(&mut m4, 199_999_999);
    assert!(!m4.okay_to_shoot());
    assert_eq!(m4.remaining(), 1);
    m4_firerate_timer(&mut m4, 1);
    assert!(m4.okay_to_shoot());
    assert_eq!(m4.remaining(), 0);
}

#[test]
fn the_interval_does_not_depend_on_how_frames_cut_it() {
    for frames in [
        vec![200_000_000u64],
        vec![100_000_000, 100_000_000],
        vec![16_666_667; 12],
        vec![0, 50_000_000, 0, 150_000_000],
    ] {
        let mut m4 = fired();
        let mut gone: u64 = 0;
        for delta in frames {
            assert!(!m4.okay_to_shoot());
            assert_eq!(m4.remaining(), 200_000_000 - gone);
            m4_firerate_timer(&mut m4, delta);
            gone += delta;
        }
        assert!(gone >= 200_000_000);
        assert!(m4.okay_to_shoot());
    }
}

#[test]
fn a_frame_of_no_length_does_not_cool_the_weapon() {
    let mut m4 = fired();
    for _ in 0..100 {
        m4_firerate_timer(&mut m4, 0);
    }
    assert_eq!(m4.remaining(), 200_000_000);
    assert!(!m4.okay_to_shoot());
}

#[test]
fn a_long_frame_ends_the_cooldown_at_once() {
    let mut m4 = fired();
    m4_firerate_timer(&mut m4, u64::MAX);
    assert!(m4.okay_to_shoot());
}

#[test]
fn a_pull_on_a_ready_weapon_hits_where_reticle_and_ball_overlap() {
    let mut m4 = M4::new();
    let mut play = PlayAnimation(false);
    assert_eq!(
        ball_contact_checker(true, Some(true), &mut m4, &mut play),
        Shot::Hit
    );
    assert!(!m4.okay_to_shoot());
    assert_eq!(m4.remaining(), FIRE_INTERVAL);
    assert_eq!(play, PlayAnimation(true));
}

#[test]
fn a_pull_misses_where_they_do_not_overlap_or_nothing_is_known() {
    for overlap in [Some(false), None] {
        let mut m4 = M4::new();
        let mut play = PlayAnimation(false);
        assert_eq!(
            ball_contact_checker(true, overlap, &mut m4, &mut play),
            Shot::Missed
        );
        assert_eq!(m4.remaining(), FIRE_INTERVAL);
        assert_eq!(play, PlayAnimation(true));
    }
}

#[test]
fn without_a_pull_nothing_happens() {
    for overlap in [Some(true), Some(false), None] {
        for playing in [false, true] {
            let mut m4 = M4::new();
            let mut play = PlayAnimation(playing);
            assert_eq!(
                ball_contact_checker(false, overlap, &mut m4, &mut play),
                Shot::Held
            );
            assert!(m4.okay_to_shoot());
            assert_eq!(play, PlayAnimation(playing));
        }
    }
}

#[test]
fn a_pull_on_a_cooling_weapon_is_dropped() {
    for overlap in [Some(true), Some(false), None] {
        for playing in [false, true] {
            let mut m4 = fired();
            m4_firerate_timer(&mut m4, 50_000_000);
            let mut play = PlayAnimation(playing);
            assert_eq!(
                ball_contact_checker(true, overlap, &mut m4, &mut play),
                Shot::Held
            );
            assert!(!m4.okay_to_shoot());
            assert_eq!(m4.remaining(), 150_000_000);
            assert_eq!(play, PlayAnimation(playing));
        }
    }
}

#[test]
fn dropped_pulls_are_not_queued() {
    let mut m4 = fired();
    let mut play = PlayAnimation(false);
    for _ in 0..5 {
        assert_eq!(
            ball_contact_checker(true, Some(true), &mut m4, &mut play),
            Shot::Held
        );
    }
    m4_firerate_timer(&mut m4, FIRE_INTERVAL);
    assert!(m4.okay_to_shoot());
    assert_eq!(
        ball_contact_checker(false, Some(true), &mut m4, &mut play),
        Shot::Held
    );
    assert!(m4.okay_to_shoot());
}

#[test]
fn a_jump_takes_its_impulse_from_the_draws() {
    assert_eq!(
        Jump::from_draws(600_000, -123, 9_999_999),
        Jump {
            linvel_x: 0,
            linvel_y: 0,
            angvel: 0,
            impulse_x: -123,
            impulse_y: 600_000,
            torque_impulse: 9_999_999,
        }
    );
    assert_eq!(
        Jump::from_draws(1, 2, 3),
        Jump {
            linvel_x: 0,
            linvel_y: 0,
            angvel: 0,
            impulse_x: 2,
            impulse_y: 1,
            torque_impulse: 3,
        }
    );
}

#[test]
fn a_hit_scores_and_throws_the_ball_within_bounds() {
    let mut scores = Scores::new();
    for hit in 1..=200 {
        let jump = ball_movement(&mut scores);
        assert_eq!(scores.current_score, hit);
        assert_eq!(jump.linvel_x, 0);
        assert_eq!(jump.linvel_y, 0);
        assert_eq!(jump.angvel, 0);
        assert!((500_000..=900_000).contains(&jump.impulse_y));
        assert!((-500_000..=500_000).contains(&jump.impulse_x));
        assert!((-10_000_000..=10_000_000).contains(&jump.torque_impulse));
    }
    assert_eq!(scores.high_score, 0);
    assert_eq!(scores.easy_hscore, 0);
    assert_eq!(scores.medium_hscore, 0);
    assert_eq!(scores.hard_hscore, 0);
}

#[test]
fn the_draws_of_a_hit_are_not_its_bounds() {
    let mut scores = Scores::new();
    let jumps: Vec<Jump> = (0..64).map(|_| ball_movement(&mut scores)).collect();
    assert!(jumps.iter().any(|jump| jump.impulse_y != LIFT_MIN));
    assert!(jumps.iter().any(|jump| jump.impulse_y != LIFT_MAX));
    assert!(jumps.iter().any(|jump| jump.impulse_x != -DRIFT_MAX));
    assert!(jumps.iter().any(|jump| jump.impulse_x != DRIFT_MAX));
    assert!(jumps.iter().any(|jump| jump.torque_impulse != -SPIN_MAX));
    assert!(jumps.iter().any(|jump| jump.torque_impulse != SPIN_MAX));
    assert!(jumps.iter().any(|jump| jump.impulse_y != jumps[0].impulse_y));
    assert!(jumps.iter().any(|jump| jump.impulse_x != jumps[0].impulse_x));
    assert!(jumps
        .iter()
        .any(|jump| jump.torque_impulse != jumps[0].torque_impulse));
}

#[test]
fn the_grace_period_is_half_a_second() {
    let timer = EndGameTimer::new();
    assert_eq!(timer.lifetime.remaining(), 500_000_000);
}

#[test]
fn the_round_ends_exactly_one_grace_period_after_the_fall() {
    let mut timer = EndGameTimer::new();
    assert!(!gameover_controller(-421, 499_999_999, &mut timer));
    assert_eq!(timer.lifetime.remaining(), 1);
    assert!(gameover_controller(-421, 1, &mut timer));
    assert_eq!(timer.lifetime.remaining(), 0);
}

#[test]
fn the_round_ends_in_the_frame_that_completes_the_grace_period() {
    let mut timer = EndGameTimer::new();
    for frame in 1..=29u64 {
        assert!(!gameover_controller(-900, 16_666_667, &mut timer));
        assert_eq!(
            timer.lifetime.remaining(),
            500_000_000 - frame * 16_666_667
        );
    }
    assert!(gameover_controller(-900, 16_666_667, &mut timer));
}

#[test]
fn the_floor_itself_is_not_below_the_floor() {
    let mut timer = EndGameTimer::new();
    for height in [-420, -419, 0, 360, i64::MAX] {
        assert!(!gameover_controller(height, 1_000_000_000, &mut timer));
        assert_eq!(timer.lifetime.remaining(), GRACE_PERIOD);
    }
    for height in [-421, i64::MIN] {
        let mut timer = EndGameTimer::new();
        assert!(gameover_controller(height, 1_000_000_000, &mut timer));
    }
}

#[test]
fn frames_of_no_length_do_not_run_the_grace_period() {
    let mut timer = EndGameTimer::new();
    for _ in 0..10 {
        assert!(!gameover_controller(-500, 0, &mut timer));
        assert_eq!(timer.lifetime.remaining(), GRACE_PERIOD);
    }
    assert!(!gameover_controller(-500, 250_000_000, &mut timer));
    assert!(!gameover_controller(-500, 0, &mut timer));
    assert_eq!(timer.lifetime.remaining(), 250_000_000);
    assert!(gameover_controller(-500, 250_000_000, &mut timer));
}

#[test]
fn the_grace_period_keeps_what_has_run_when_the_ball_comes_back_up() {
    let mut timer = EndGameTimer::new();
    assert!(!gameover_controller(-430, 300_000_000, &mut timer));
    assert_eq!(timer.lifetime.remaining(), 200_000_000);
    assert!(!gameover_controller(-100, 300_000_000, &mut timer));
    assert_eq!(timer.lifetime.remaining(), 200_000_000);
    assert!(!gameover_controller(-430, 100_000_000, &mut timer));
    assert_eq!(timer.lifetime.remaining(), 100_000_000);
    assert!(!gameover_controller(0, 0, &mut timer));
    assert!(gameover_controller(-430, 100_000_000, &mut timer));
}

#[test]
fn a_run_out_timer_does_not_end_the_round_above_the_floor() {
    let mut timer = EndGameTimer::new();
    assert!(gameover_controller(-421, GRACE_PERIOD, &mut timer));
    assert!(!gameover_controller(-420, 1, &mut timer));
    assert!(gameover_controller(-421, 0, &mut timer));
}

#[test]
fn closing_a_round_commits_the_score_and_clears_the_round() {
    let mut scores = Scores {
        current_score: 3,
        high_score: 0,
        easy_hscore: 2,
        medium_hscore: 9,
        hard_hscore: 0,
    };
    let mut stage = Stage::new();
    stage.spawn(EntityKind::Title);
    stage.spawn(EntityKind::M4);
    stage.spawn(EntityKind::Ball(Ball::Easy));
    stage.spawn(EntityKind::HomeButton);
    stage.spawn(EntityKind::Fire);
    entity_despawner(Ball::Easy, &mut scores, &mut stage);
    assert_eq!(scores.easy_hscore, 3);
    assert_eq!(scores.high_score, 3);
    assert_eq!(scores.medium_hscore, 9);
    assert_eq!(stage.len(), 2);
    assert_eq!(stage.get(0), Some(EntityKind::Title));
    assert_eq!(stage.get(1), Some(EntityKind::HomeButton));
}

#[test]
fn the_weapon_s_animation_rests_while_switched_off() {
    let mut round = Round::new();
    let mut play = PlayAnimation(false);
    for _ in 0..10 {
        assert_eq!(
            m4_animation(
                M4_FRAME,
                &mut round.animation_state,
                &round.animation,
                &mut play
            ),
            None
        );
        assert_eq!(play, PlayAnimation(false));
    }
}

#[test]
fn the_weapon_s_animation_plays_through_its_sheet_and_stops() {
    let mut round = Round::new();
    let mut play = PlayAnimation(true);
    let mut cells = Vec::new();
    while play.0 {
        let cell = m4_animation(
            M4_FRAME,
            &mut round.animation_state,
            &round.animation,
            &mut play,
        );
        cells.push(cell.unwrap());
        assert!(cells.len() <= 5);
    }
    assert_eq!(cells, vec![1, 2, 3, 4]);
    assert_eq!(
        m4_animation(
            M4_FRAME,
            &mut round.animation_state,
            &round.animation,
            &mut play
        ),
        None
    );
    play.0 = true;
    assert_eq!(
        m4_animation(0, &mut round.animation_state, &round.animation, &mut play),
        Some(0)
    );
    assert_eq!(
        m4_animation(
            M4_FRAME - 1,
            &mut round.animation_state,
            &round.animation,
            &mut play
        ),
        Some(0)
    );
    assert_eq!(
        m4_animation(1, &mut round.animation_state, &round.animation, &mut play),
        Some(1)
    );
    assert!(play.0);
}

#[test]
fn a_long_frame_takes_the_weapon_s_animation_to_a_cell_of_its_sheet() {
    let mut round = Round::new();
    let mut play = PlayAnimation(true);
    let cell = m4_animation(
        7 * M4_FRAME,
        &mut round.animation_state,
        &round.animation,
        &mut play,
    )
    .unwrap();
    assert_eq!(cell, 2);
    assert!(play.0);
}

#[test]
fn the_weapon_s_animation_is_back_at_cell_zero_when_it_stops() {
    let mut round = Round::new();
    assert_eq!(round.animation_state.frame_index(), 0);
    let mut play = PlayAnimation(true);
    for expected in [1, 2, 3] {
        let cell = m4_animation(
            M4_FRAME,
            &mut round.animation_state,
            &round.animation,
            &mut play,
        );
        assert_eq!(cell, Some(expected));
        assert_eq!(round.animation_state.frame_index(), expected);
        assert!(play.0);
    }
    let cell = m4_animation(
        M4_FRAME,
        &mut round.animation_state,
        &round.animation,
        &mut play,
    );
    assert_eq!(cell, Some(4));
    assert_eq!(round.animation_state.frame_index(), 0);
    assert!(!play.0);
    assert_eq!(
        m4_animation(
            M4_FRAME,
            &mut round.animation_state,
            &round.animation,
            &mut play
        ),
        None
    );
    assert_eq!(round.animation_state.frame_index(), 0);
}
