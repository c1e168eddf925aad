use first_person_hopper::button::respond;
use first_person_hopper::button::ButtonLook;
use first_person_hopper::button::ButtonResponse;
use first_person_hopper::button::Interaction;
use first_person_hopper::gameover::gameover_ui;
use first_person_hopper::ingame::ingame_ui::ui_update;
use first_person_hopper::ingame::Scores;
use first_person_hopper::mainmenu::mainmenu_ui;
use first_person_hopper::stage::Stage;
use first_person_hopper::text::push_decimal;
use first_person_hopper::text::to_decimal;
use first_person_hopper::AppState;
use first_person_hopper::GameDifficultyState;

fn pressed(target: AppState, difficulty: Option<GameDifficultyState>) -> ButtonResponse {
    ButtonResponse {
        next_state: Some(target),
        next_difficulty: difficulty,
        look: None,
        hover_sound: false,
    }
}

fn hovered() -> ButtonResponse {
    ButtonResponse {
        next_state: None,
        next_difficulty: None,
        look: Some(ButtonLook::Hovered),
        hover_sound: true,
    }
}

fn idle() -> ButtonResponse {
    ButtonResponse {
        next_state: None,
        next_difficulty: None,
        look: Some(ButtonLook::Normal),
        hover_sound: false,
    }
}

#[test]
fn the_difficulty_buttons_start_a_round_of_their_difficulty() {
    assert_eq!(
        mainmenu_ui::easy_button_system(Interaction::Pressed),
        pressed(AppState::InGame, Some(GameDifficultyState::Easy))
    );
    assert_eq!(
        mainmenu_ui::medium_button_system(Interaction::Pressed),
        pressed(AppState::InGame, Some(GameDifficultyState::Medium))
    );
    assert_eq!(
        mainmenu_ui::hard_button_system(Interaction::Pressed),
        pressed(AppState::InGame, Some(GameDifficultyState::Hard))
    );
}

#[test]
fn the_game_over_buttons_lead_home_or_to_another_round() {
    assert_eq!(
        gameover_ui::home_button_system(Interaction::Pressed),
        pressed(AppState::MainMenu, None)
    );
    assert_eq!(
        gameover_ui::restart_button_system(Interaction::Pressed),
        pressed(AppState::InGame, None)
    );
}

#[test]
fn a_hovered_button_lights_up_and_sounds() {
    assert_eq!(mainmenu_ui::easy_button_system(Interaction::Hovered), hovered());
    assert_eq!(
        mainmenu_ui::medium_button_system(Interaction::Hovered),
        hovered()
    );
    assert_eq!(mainmenu_ui::hard_button_system(Interaction::Hovered), hovered());
    assert_eq!(gameover_ui::home_button_system(Interaction::Hovered), hovered());
    assert_eq!(
        gameover_ui::restart_button_system(Interaction::Hovered),
        hovered()
    );
}

#[test]
fn a_button_left_alone_looks_normal_and_is_silent() {
    assert_eq!(mainmenu_ui::easy_button_system(Interaction::Idle), idle());
    assert_eq!(mainmenu_ui::medium_button_system(Interaction::Idle), idle());
    assert_eq!(mainmenu_ui::hard_button_system(Interaction::Idle), idle());
    assert_eq!(gameover_ui::home_button_system(Interaction::Idle), idle());
    assert_eq!(gameover_ui::restart_button_system(Interaction::Idle), idle());
}

#[test]
fn a_response_names_the_target_only_when_pressed() {
    assert_eq!(
        respond(Interaction::Pressed, AppState::GameOver, None),
        pressed(AppState::GameOver, None)
    );
    assert_eq!(
        respond(
            Interaction::Hovered,
            AppState::GameOver,
            Some(GameDifficultyState::Hard)
        ),
        hovered()
    );
    assert_eq!(
        respond(
            Interaction::Idle,
            AppState::GameOver,
            Some(GameDifficultyState::Hard)
        ),
        idle()
    );
}

#[test]
fn decimal_notation_of_small_and_large_numbers() {
    assert_eq!(to_decimal(0), "0");
    assert_eq!(to_decimal(7), "7");
    assert_eq!(to_decimal(9), "9");
    assert_eq!(to_decimal(10), "10");
    assert_eq!(to_decimal(11), "11");
    assert_eq!(to_decimal(100), "100");
    assert_eq!(to_decimal(1_234_567_890), "1234567890");
    assert_eq!(to_decimal(i32::MAX), "2147483647");
    assert_eq!(to_decimal(-1), "-1");
    assert_eq!(to_decimal(-90), "-90");
    assert_eq!(to_decimal(i32::MIN), "-2147483648");
}

#[test]
fn decimal_notation_agrees_with_the_standard_library() {
    let mut n: i32 = -50_000;
    while n <= 50_000 {
        assert_eq!(to_decimal(n), format!("{}", n));
        n += 37;
    }
}

#[test]
fn push_decimal_appends() {
    let mut text = String::from("abc");
    push_decimal(&mut text, 405);
    assert_eq!(text, "abc405");
    push_decimal(&mut text, -6);
    assert_eq!(text, "abc405-6");
}

#[test]
fn the_score_display_reads_the_running_score() {
    let mut scores = Scores::new();
    assert_eq!(ui_update(&scores), "0");
    scores.current_score = 12;
    scores.high_score = 99;
    assert_eq!(ui_update(&scores), "12");
}

#[test]
fn the_main_menu_labels_show_the_bests() {
    let scores = Scores {
        current_score: 1,
        high_score: 2,
        easy_hscore: 30,
        medium_hscore: 4,
        hard_hscore: 0,
    };
    let mut stage = Stage::new();
    let labels = mainmenu_ui::setup(&mut stage, &scores);
    assert_eq!(labels.easy, "EASY: 30");
    assert_eq!(labels.medium, "MEDIUM: 4");
    assert_eq!(labels.hard, "HARD: 0");
}

#[test]
fn the_game_over_labels_show_score_and_high_score() {
    let scores = Scores {
        current_score: 3,
        high_score: 17,
        easy_hscore: 30,
        medium_hscore: 4,
        hard_hscore: 0,
    };
    let mut stage = Stage::new();
    let labels = gameover_ui::setup(&mut stage, &scores);
    assert_eq!(labels.score, "SCORE: 3");
    assert_eq!(labels.high_score, "HIGH SCORE: 17");
}
