//! The game as a whole: which screen shows, and which rules run on it.
//!
//! A [`Game`] owns the score tracker, the stage and the parts of the round. The
//! engine reports what happened, one call for each frame of a round and one
//! for each change of a button, and the game answers with what the engine is
//! to do. Only the rules of the screen that shows run; a report that belongs
//! to another screen changes nothing.

use vstd::prelude::*;

use crate::button::response_of;
use crate::button::ButtonResponse;
use crate::button::Interaction;
use crate::clock::run_down;
use crate::gameover::gameover_ui;
use crate::gameover::gameover_ui::GameOverLabels;
use crate::ingame::animations::bullet_case_despawn;
use crate::ingame::animations::contact_spawn;
use crate::ingame::animations::fire_spawn;
use crate::ingame::animations::strip;
use crate::ingame::animations::BulletCase;
use crate::ingame::animations::ContactEffects;
use crate::ingame::animations::CONTACT_FRAME;
use crate::ingame::animations::FIRE_FRAME;
use crate::ingame::animations::FLASH_LIFETIME;
use crate::ingame::animations::FireEffects;
use crate::ingame::gameplay::ball_contact_checker;
use crate::ingame::gameplay::ball_movement;
use crate::ingame::gameplay::entity_despawner;
use crate::ingame::gameplay::gameover_controller;
use crate::ingame::gameplay::grace_after;
use crate::ingame::gameplay::m4_animation;
use crate::ingame::gameplay::m4_firerate_timer;
use crate::ingame::gameplay::shot_of;
use crate::ingame::gameplay::Jump;
use crate::ingame::gameplay::PlayAnimation;
use crate::ingame::gameplay::Shot;
use crate::ingame::gameplay::FLOOR;
use crate::ingame::ingame_ui::ui_update;
use crate::ingame;
use crate::ingame::spawn::m4_frames;
use crate::ingame::spawn::Ball;
use crate::ingame::spawn::BallProfile;
use crate::ingame::spawn::Cooldown;
use crate::ingame::spawn::EndGameTimer;
use crate::ingame::spawn::Round;
use crate::ingame::spawn::FIRE_INTERVAL;
use crate::ingame::spawn::GRACE_PERIOD;
use crate::ingame::spawn::M4;
use crate::ingame::spawn::M4_LAST_CELL;
use crate::ingame::shown_in;
use crate::ingame::Scores;
use crate::ingame::ScoresView;
use crate::mainmenu::mainmenu_ui;
use crate::mainmenu::mainmenu_ui::MenuLabels;
use crate::stage::count_of;
use crate::stage::entered;
use crate::stage::lemma_count_of_absent;
use crate::stage::lemma_count_of_add;
use crate::stage::lemma_without_one_is_a_removal;
use crate::stage::lemma_without_one_keeps_the_others;
use crate::stage::first_of;
use crate::stage::fixed_set;
use crate::stage::left;
use crate::stage::lemma_fixed_set_holds_each_once;
use crate::stage::not_owned_by;
use crate::stage::without_one;
use crate::stage::EntityKind;
use crate::stage::Stage;
use crate::text::decimal;
use crate::AppState;
use crate::GameDifficultyState;

verus! {

/// What the engine reports of one frame of a round.
#[derive(Debug, Clone, Copy, PartialEq, Eq, Structural)]
pub struct FrameInput {
    /// The length of the frame, in nanoseconds.
    pub delta: u64,
    /// Whether the trigger went down in this frame.
    pub just_pressed: bool,
    /// What the physics engine says of reticle and ball: `Some(true)` where
    /// they overlap, `None` where it cannot say.
    pub overlap: Option<bool>,
    /// The ball's height in world units, rounded down.
    pub ball_height: i64,
}

/// The screen that a call has brought up, with what the engine needs to draw
/// it.
pub enum Entered {
    /// The screen is the one that showed before.
    Stayed,
    /// The main menu, with the labels of its buttons.
    MainMenu(MenuLabels),
    /// A round, with what the physics engine is to make of the ball.
    InGame(BallProfile),
    /// The game-over screen, with its two lines of score.
    GameOver(GameOverLabels),
}

/// What is to become of the cursor when a screen comes up.
#[derive(Debug, Clone, Copy, PartialEq, Eq, Hash, Structural)]
pub enum CursorMode {
    /// Hidden and kept within the window, for a round.
    Confined,
    /// Shown and let go, once the round is over.
    Free,
}

impl Entered {
    /// What is to become of the cursor now: a round that starts takes it, the
    /// game-over screen gives it back, and nothing else touches it.
    #[verifier::when_used_as_spec(spec_cursor)]
    pub fn cursor(&self) -> (mode: Option<CursorMode>)
        ensures
            mode == self.spec_cursor(),
    {
        match self {
            Entered::Stayed => None,
            Entered::MainMenu(_) => None,
            Entered::InGame(_) => Some(CursorMode::Confined),
            Entered::GameOver(_) => Some(CursorMode::Free),
        }
    }

    /// What is to become of the cursor now.
    pub open spec fn spec_cursor(&self) -> Option<CursorMode> {
        match self {
            Entered::Stayed => None,
            Entered::MainMenu(_) => None,
            Entered::InGame(_) => Some(CursorMode::Confined),
            Entered::GameOver(_) => Some(CursorMode::Free),
        }
    }
}

/// What the engine is to do after one frame of a round.
pub struct FrameOutput {
    /// What came of the trigger. Unless it was held, the weapon sounds.
    pub shot: Shot,
    /// The flash and the casing to show, for a shot.
    pub fire: Option<FireEffects>,
    /// The spark to show, for a hit.
    pub contact: Option<ContactEffects>,
    /// What to do to the ball, for a hit.
    pub jump: Option<Jump>,
    /// The cell of the weapon's sheet to show, while its animation plays.
    pub m4_cell: Option<usize>,
    /// The text of the score display.
    pub score_text: String,
    /// `Entered::GameOver` in the frame that ends the round, `Entered::Stayed`
    /// in every other.
    pub entered: Entered,
}

impl FrameOutput {
    /// Whether this is what the engine is to do after the frame `input` of
    /// the round `before`.
    ///
    /// The trigger comes to what the rules say. Every shot, and nothing else,
    /// brings a flash and a casing; every hit, and nothing else, brings a
    /// spark and a jump within the bounds of a hit. The weapon's animation
    /// shows one of its cells while it plays. The score display reads the
    /// running score after the frame. The game-over screen comes up exactly
    /// in the frame that ends the round, with the scores as committed.
    pub open spec fn answers(self, before: GameView, input: FrameInput) -> bool {
        let shot = before.shot(input);
        let after = before.after_frame(input, self.m4_cell);
        &&& self.shot == shot
        &&& self.fire is Some <==> shot != Shot::Held
        &&& self.fire matches Some(effects) ==> {
            &&& effects.animation.frames() == strip(2, FIRE_FRAME)
            &&& effects.animation.plays_once()
            &&& effects.animation_state@ == 0
            &&& effects.flash@ == FLASH_LIFETIME
            &&& effects.casing.within_bounds()
        }
        &&& self.contact is Some <==> shot == Shot::Hit
        &&& self.contact matches Some(effects) ==> {
            &&& effects.animation.frames() == strip(4, CONTACT_FRAME)
            &&& effects.animation.plays_once()
            &&& effects.animation_state@ == 0
        }
        &&& self.jump is Some <==> shot == Shot::Hit
        &&& self.jump matches Some(jump) ==> jump.within_bounds()
        &&& self.m4_cell is Some <==> before.play_animation || shot != Shot::Held
        &&& self.m4_cell matches Some(cell) ==> shown_in(before.animation, cell)
        &&& self.score_text@ == decimal(after.scores.current)
        &&& before.over(input) ==> (self.entered matches Entered::GameOver(labels) && labels.shows(
            after.scores,
        ))
        &&& !before.over(input) ==> self.entered is Stayed
    }
}

/// The two buttons of the game-over screen.
#[derive(Debug, Clone, Copy, PartialEq, Eq, Hash, Structural)]
pub enum GameOverButton {
    Home,
    Restart,
}

/// The game as the rules see it.
pub struct GameView {
    /// The screen that shows.
    pub state: AppState,
    /// The difficulty picked last.
    pub difficulty: GameDifficultyState,
    /// The scores.
    pub scores: ScoresView,
    /// The kinds of the entities on stage, in the order in which they were
    /// put up.
    pub stage: Seq<EntityKind>,
    /// The weapon's rate of fire.
    pub m4: Cooldown,
    /// What is left of the grace period, in nanoseconds.
    pub grace: nat,
    /// Whether the weapon's firing animation is switched on.
    pub play_animation: bool,
    /// The frames of the weapon's firing animation: cell and nanoseconds.
    pub animation: Seq<(usize, nat)>,
}

impl GameView {
    /// Only the screen that shows has entities on stage.
    pub open spec fn one_screen(self) -> bool {
        forall|i: int| 0 <= i < self.stage.len() ==> (#[trigger] self.stage[i]).owner() == self.state
    }

    /// Each entity of the fixed set of the screen that shows is on stage
    /// exactly once.
    pub open spec fn each_once(self) -> bool {
        forall|kind: EntityKind|
            #[trigger] fixed_set(self.state, Ball::of(self.difficulty)).contains(kind)
                ==> count_of(self.stage, kind) == 1
    }

    /// What holds of every game, whatever has been played: one screen is on
    /// stage, with each entity of its fixed set exactly once; no score is
    /// negative; a cooling weapon has time to go; and the weapon's animation
    /// is the one that every round starts with.
    pub open spec fn wf(self) -> bool {
        &&& self.one_screen()
        &&& self.each_once()
        &&& self.scores.non_negative()
        &&& self.m4.wf()
        &&& self.animation == m4_frames()
    }

    /// The stage after a change of screen: the screen that showed is left,
    /// `next` is entered.
    pub open spec fn switched_to(self, next: AppState, ball: Ball) -> Seq<EntityKind> {
        entered(left(self.stage, self.state), next, ball)
    }

    /// The game after a change to the main menu.
    pub open spec fn at_main_menu(self) -> GameView {
        GameView {
            state: AppState::MainMenu,
            stage: self.switched_to(AppState::MainMenu, Ball::of(self.difficulty)),
            ..self
        }
    }

    /// The game at the start of a round of `difficulty`: the running score is
    /// zero, the weapon ready, the grace period whole, and the round's fixed
    /// set is on stage in place of what the last screen owned.
    pub open spec fn at_round_start(self, difficulty: GameDifficultyState) -> GameView {
        GameView {
            state: AppState::InGame,
            difficulty,
            scores: self.scores.started(),
            stage: self.switched_to(AppState::InGame, Ball::of(difficulty)),
            m4: Cooldown::Ready,
            grace: GRACE_PERIOD as nat,
            play_animation: self.play_animation,
            animation: m4_frames(),
        }
    }

    /// The game at the end of a round: the round's score has been committed to
    /// the round's difficulty, and the game-over screen's fixed set is on
    /// stage in place of what the last screen owned.
    pub open spec fn at_game_over(self) -> GameView {
        GameView {
            state: AppState::GameOver,
            scores: self.scores.committed(self.difficulty),
            stage: self.switched_to(AppState::GameOver, Ball::of(self.difficulty)),
            ..self
        }
    }

    /// The game after a change of the interaction with the main menu's button
    /// for `difficulty`: pressed while the menu shows, the button starts a
    /// round of that difficulty; anything else changes nothing.
    pub open spec fn after_menu_button(
        self,
        difficulty: GameDifficultyState,
        interaction: Interaction,
    ) -> GameView {
        if self.state == AppState::MainMenu && interaction == Interaction::Pressed {
            self.at_round_start(difficulty)
        } else {
            self
        }
    }

    /// The screen that a button of the game-over screen leads to.
    pub open spec fn target_of(button: GameOverButton) -> AppState {
        match button {
            GameOverButton::Home => AppState::MainMenu,
            GameOverButton::Restart => AppState::InGame,
        }
    }

    /// The game after a change of the interaction with a button of the
    /// game-over screen: pressed while that screen shows, the button brings
    /// up the main menu or another round of the same difficulty; anything
    /// else changes nothing.
    pub open spec fn after_gameover_button(
        self,
        button: GameOverButton,
        interaction: Interaction,
    ) -> GameView {
        if self.state == AppState::GameOver && interaction == Interaction::Pressed {
            match button {
                GameOverButton::Home => self.at_main_menu(),
                GameOverButton::Restart => self.at_round_start(self.difficulty),
            }
        } else {
            self
        }
    }

    /// What comes of the trigger in a frame of a round: the cooldown runs for
    /// the frame first, then the trigger is looked at.
    pub open spec fn shot(self, input: FrameInput) -> Shot {
        shot_of(input.just_pressed, self.m4.ticked(input.delta as nat), input.overlap)
    }

    /// Whether a frame of a round ends the round.
    pub open spec fn over(self, input: FrameInput) -> bool {
        input.ball_height < FLOOR && grace_after(
            self.grace,
            input.ball_height as int,
            input.delta as nat,
        ) == 0
    }

    /// The effects that a shot adds to the stage: flash and casing for every
    /// shot, and the spark for a hit.
    pub open spec fn effects_of(shot: Shot) -> Seq<EntityKind> {
        match shot {
            Shot::Held => Seq::empty(),
            Shot::Missed => seq![EntityKind::Fire, EntityKind::BulletCase],
            Shot::Hit => seq![EntityKind::Fire, EntityKind::BulletCase, EntityKind::Contact],
        }
    }

    /// The round after a frame, before the question whether the round is over.
    /// `m4_cell` is the cell that the weapon's animation came to show, if it
    /// was playing.
    pub open spec fn played(self, input: FrameInput, m4_cell: Option<usize>) -> GameView {
        let shot = self.shot(input);
        GameView {
            scores: if shot == Shot::Hit {
                self.scores.hit()
            } else {
                self.scores
            },
            stage: self.stage + GameView::effects_of(shot),
            m4: self.m4.framed(input.delta as nat, input.just_pressed),
            grace: grace_after(self.grace, input.ball_height as int, input.delta as nat),
            play_animation: (self.play_animation || shot != Shot::Held) && m4_cell != Some(
                M4_LAST_CELL,
            ),
            ..self
        }
    }

    /// The game after a frame. Off a round, nothing changes. In a round the
    /// frame is played, and where it ends the round the game is over.
    pub open spec fn after_frame(self, input: FrameInput, m4_cell: Option<usize>) -> GameView {
        if self.state != AppState::InGame {
            self
        } else if self.over(input) {
            self.played(input, m4_cell).at_game_over()
        } else {
            self.played(input, m4_cell)
        }
    }
}

impl GameView {
    /// The game after the frames `frames`, each given as what the engine
    /// reported of it and the cell that the weapon's animation came to show.
    pub open spec fn after_frames(self, frames: Seq<(FrameInput, Option<usize>)>) -> GameView
        decreases frames.len(),
    {
        if frames.len() == 0 {
            self
        } else {
            self.after_frames(frames.drop_last()).after_frame(frames.last().0, frames.last().1)
        }
    }
}

/// The time that went by in the frames `frames`.
pub open spec fn time_played(frames: Seq<(FrameInput, Option<usize>)>) -> nat
    decreases frames.len(),
{
    if frames.len() == 0 {
        0
    } else {
        time_played(frames.drop_last()) + frames.last().0.delta as nat
    }
}

/// The game.
pub struct Game {
    state: AppState,
    difficulty: GameDifficultyState,
    scores: Scores,
    stage: Stage,
    round: Round,
    play_animation: PlayAnimation,
}

impl View for Game {
    type V = GameView;

    closed spec fn view(&self) -> GameView {
        GameView {
            state: self.state,
            difficulty: self.difficulty,
            scores: self.scores@,
            stage: self.stage@,
            m4: self.round.m4@,
            grace: self.round.end_game_timer@,
            play_animation: self.play_animation.0,
            animation: self.round.animation.frames(),
        }
    }
}

/// A stage on which `screen` owns everything is empty once `screen` has been
/// left.
proof fn lemma_left_alone(kinds: Seq<EntityKind>, screen: AppState)
    requires
        forall|i: int| 0 <= i < kinds.len() ==> (#[trigger] kinds[i]).owner() == screen,
    ensures
        left(kinds, screen) == Seq::<EntityKind>::empty(),
{
    assert(kinds.all(|kind: EntityKind| !not_owned_by(screen)(kind)));
    kinds.lemma_all_neg_filter_empty(not_owned_by(screen));
    assert(left(kinds, screen) =~= Seq::<EntityKind>::empty());
}

/// A stage that holds nothing of `screen` is as it was once `screen` has been
/// left.
proof fn lemma_left_elsewhere(kinds: Seq<EntityKind>, screen: AppState)
    requires
        forall|i: int| 0 <= i < kinds.len() ==> (#[trigger] kinds[i]).owner() != screen,
    ensures
        left(kinds, screen) == kinds,
    decreases kinds.len(),
{
    reveal(Seq::filter);
    if kinds.len() > 0 {
        lemma_left_elsewhere(kinds.drop_last(), screen);
        assert(kinds.drop_last().push(kinds.last()) =~= kinds);
    }
}

/// A screen owns all of its fixed set.
proof fn lemma_fixed_set_owned(screen: AppState, ball: Ball)
    ensures
        forall|i: int|
            0 <= i < fixed_set(screen, ball).len() ==> (#[trigger] fixed_set(
                screen,
                ball,
            )[i]).owner() == screen,
{
    assert forall|i: int| 0 <= i < fixed_set(screen, ball).len() implies (#[trigger] fixed_set(
        screen,
        ball,
    )[i]).owner() == screen by {
        let kind = fixed_set(screen, ball)[i];
        assert(fixed_set(screen, ball).contains(kind));
        lemma_fixed_set_holds_each_once(screen, ball, kind);
    }
}


/// A change of screen on a stage that the old screen had to itself leaves the
/// new screen's fixed set and nothing else.
pub proof fn lemma_switch_leaves_the_fixed_set(game: GameView, next: AppState, ball: Ball)
    requires
        game.one_screen(),
    ensures
        game.switched_to(next, ball) == fixed_set(next, ball),
{
    lemma_left_alone(game.stage, game.state);
    lemma_left_alone(Seq::<EntityKind>::empty(), next);
    assert(game.switched_to(next, ball) =~= fixed_set(next, ball));
}

/// A stage that is just a screen's fixed set holds each of its entities once,
/// and nothing of another screen.
proof fn lemma_fresh_screen(game: GameView)
    requires
        game.stage == fixed_set(game.state, Ball::of(game.difficulty)),
    ensures
        game.one_screen(),
        game.each_once(),
{
    lemma_fixed_set_owned(game.state, Ball::of(game.difficulty));
    assert forall|kind: EntityKind| #[trigger]
        fixed_set(game.state, Ball::of(game.difficulty)).contains(kind) implies count_of(
        game.stage,
        kind,
    ) == 1 by {
        lemma_fixed_set_holds_each_once(game.state, Ball::of(game.difficulty), kind);
    }
}

/// The buttons keep a well-formed game well formed, whatever is done to them
/// on whatever screen.
pub proof fn lemma_buttons_keep_wf(
    game: GameView,
    difficulty: GameDifficultyState,
    button: GameOverButton,
    interaction: Interaction,
)
    requires
        game.wf(),
    ensures
        game.after_menu_button(difficulty, interaction).wf(),
        game.after_gameover_button(button, interaction).wf(),
{
    lemma_switch_leaves_the_fixed_set(game, AppState::InGame, Ball::of(difficulty));
    lemma_switch_leaves_the_fixed_set(game, AppState::InGame, Ball::of(game.difficulty));
    lemma_switch_leaves_the_fixed_set(game, AppState::MainMenu, Ball::of(game.difficulty));
    lemma_fresh_screen(game.at_round_start(difficulty));
    lemma_fresh_screen(game.at_round_start(game.difficulty));
    lemma_fresh_screen(game.at_main_menu());
}

/// A frame keeps a well-formed game well formed.
pub proof fn lemma_frame_keeps_wf(game: GameView, input: FrameInput, m4_cell: Option<usize>)
    requires
        game.wf(),
    ensures
        game.after_frame(input, m4_cell).wf(),
{
    if game.state == AppState::InGame {
        let played = game.played(input, m4_cell);
        let effects = GameView::effects_of(game.shot(input));
        assert(played.one_screen());
        assert forall|kind: EntityKind| #[trigger]
            fixed_set(played.state, Ball::of(played.difficulty)).contains(kind) implies count_of(
            played.stage,
            kind,
        ) == 1 by {
            lemma_count_of_add(game.stage, effects, kind);
            lemma_count_of_absent(effects, kind);
        }
        assert(played.scores.non_negative());
        if game.over(input) {
            lemma_switch_leaves_the_fixed_set(
                played,
                AppState::GameOver,
                Ball::of(played.difficulty),
            );
            lemma_fresh_screen(played.at_game_over());
            assert(played.at_game_over().scores.non_negative()) by {
                let committed = played.scores.committed(played.difficulty);
                assert forall|difficulty: GameDifficultyState| #[trigger]
                    committed.bests[difficulty] >= 0 by {
                    if difficulty != played.difficulty {
                        assert(committed.bests[difficulty] == played.scores.bests[difficulty]);
                    }
                }
            }
        }
    }
}

/// The end of a muzzle flash keeps a well-formed game well formed.
pub proof fn lemma_flash_end_keeps_wf(game: GameView)
    requires
        game.wf(),
    ensures
        (GameView { stage: without_one(game.stage, EntityKind::Fire), ..game }).wf(),
{
    let after = GameView { stage: without_one(game.stage, EntityKind::Fire), ..game };
    assert(after.one_screen()) by {
        lemma_without_one_is_a_removal(game.stage, EntityKind::Fire);
        let at = first_of(game.stage, EntityKind::Fire);
        assert forall|i: int| 0 <= i < after.stage.len() implies (#[trigger] after.stage[i]).owner()
            == after.state by {
            if at < game.stage.len() {
                if i < at {
                    assert(after.stage[i] == game.stage[i]);
                } else {
                    assert(after.stage[i] == game.stage[i + 1]);
                }
            }
        }
    }
    assert forall|kind: EntityKind| #[trigger]
        fixed_set(after.state, Ball::of(after.difficulty)).contains(kind) implies count_of(
        after.stage,
        kind,
    ) == 1 by {
        lemma_without_one_keeps_the_others(game.stage, EntityKind::Fire, kind);
    }
}

/// While the weapon is still cooling when the trigger is looked at, the pull
/// is dropped: no shot comes of the frame, whatever the engine says of reticle
/// and ball; the frame's play leaves the scores as they are and adds nothing
/// to the stage, and the cooldown runs on as if the trigger had not been
/// touched. An answer to such a frame holds no jump, no flash and no spark.
pub proof fn lemma_cooling_weapon_drops_the_pull(
    game: GameView,
    input: FrameInput,
    output: FrameOutput,
)
    requires
        game.state == AppState::InGame,
        game.m4.ticked(input.delta as nat) != Cooldown::Ready,
        output.answers(game, input),
    ensures
        output.shot == Shot::Held,
        output.jump is None,
        output.fire is None,
        output.contact is None,
        game.played(input, output.m4_cell).scores == game.scores,
        game.played(input, output.m4_cell).stage == game.stage,
        game.played(input, output.m4_cell).m4 == game.m4.ticked(input.delta as nat),
{
    assert(game.stage + Seq::<EntityKind>::empty() =~= game.stage);
}

/// After a shot the weapon cools for exactly the interval between two shots,
/// and until then nothing scores. Take a round whose weapon has just fired,
/// and any frames that follow, with whatever pulls of the trigger and
/// whatever the engine says of reticle and ball. The running score after them
/// is what it was as long as their lengths come to less than the interval; and
/// as long as the round goes on, the weapon is cooling with the rest of the
/// interval to go.
pub proof fn lemma_nothing_scores_while_cooling(
    game: GameView,
    frames: Seq<(FrameInput, Option<usize>)>,
)
    requires
        game.state == AppState::InGame,
        game.m4 == Cooldown::Cooling(FIRE_INTERVAL as nat),
        time_played(frames) < FIRE_INTERVAL,
    ensures
        game.after_frames(frames).scores.current == game.scores.current,
        game.after_frames(frames).state == AppState::InGame ==> game.after_frames(frames).m4
            == Cooldown::Cooling((FIRE_INTERVAL - time_played(frames)) as nat),
        game.after_frames(frames).state != AppState::InGame ==> game.after_frames(frames).state
            == AppState::GameOver,
    decreases frames.len(),
{
    if frames.len() > 0 {
        lemma_nothing_scores_while_cooling(game, frames.drop_last());
    }
}

/// A round ends exactly one grace period after the ball has dropped below the
/// floor for good. Take a round that has just started and any frames in all of
/// which the ball is below the floor: after them the game is over if and only
/// if their lengths come to the grace period; until then the round goes on
/// with the rest of the grace period to go.
pub proof fn lemma_round_ends_one_grace_period_after_the_fall(
    game: GameView,
    frames: Seq<(FrameInput, Option<usize>)>,
)
    requires
        game.state == AppState::InGame,
        game.grace == GRACE_PERIOD,
        forall|i: int| 0 <= i < frames.len() ==> (#[trigger] frames[i]).0.ball_height < FLOOR,
    ensures
        game.after_frames(frames).state == AppState::GameOver <==> time_played(frames)
            >= GRACE_PERIOD,
        time_played(frames) < GRACE_PERIOD ==> game.after_frames(frames).state
            == AppState::InGame && game.after_frames(frames).grace == GRACE_PERIOD - time_played(
            frames,
        ),
    decreases frames.len(),
{
    if frames.len() > 0 {
        lemma_round_ends_one_grace_period_after_the_fall(game, frames.drop_last());
        assert(frames.last().0.ball_height < FLOOR);
    }
}

/// No best ever falls: whatever is played and whatever button is pressed,
/// the best kept for a difficulty is afterwards at least what it was.
pub proof fn lemma_bests_never_fall(
    game: GameView,
    input: FrameInput,
    m4_cell: Option<usize>,
    picked: GameDifficultyState,
    button: GameOverButton,
    interaction: Interaction,
    difficulty: GameDifficultyState,
)
    ensures
        game.after_frame(input, m4_cell).scores.bests[difficulty] >= game.scores.bests[difficulty],
        game.after_menu_button(picked, interaction).scores.bests[difficulty]
            >= game.scores.bests[difficulty],
        game.after_gameover_button(button, interaction).scores.bests[difficulty]
            >= game.scores.bests[difficulty],
{
}

impl Game {
    /// A game that has just been started: it shows the main menu, every score
    /// is zero, the difficulty is medium.
    pub fn new() -> (started: (Game, MenuLabels))
        ensures
            started.0@.state == AppState::MainMenu,
            started.0@.difficulty == GameDifficultyState::Medium,
            started.0@.scores == ScoresView::zero(),
            started.0@.stage == fixed_set(AppState::MainMenu, Ball::Medium),
            started.0@.m4 == Cooldown::Ready,
            started.0@.grace == GRACE_PERIOD,
            !started.0@.play_animation,
            started.0@.animation == m4_frames(),
            started.1.shows(ScoresView::zero()),
            started.0@.wf(),
    {
        let scores = Scores::new();
        let mut stage = Stage::new();
        let labels = mainmenu_ui::setup(&mut stage, &scores);
        proof {
            lemma_left_alone(Seq::<EntityKind>::empty(), AppState::MainMenu);
            lemma_fixed_set_owned(AppState::MainMenu, Ball::Medium);
            assert(stage@ =~= fixed_set(AppState::MainMenu, Ball::Medium));
        }
        let game = Game {
            state: AppState::MainMenu,
            difficulty: GameDifficultyState::Medium,
            scores,
            stage,
            round: Round::new(),
            play_animation: PlayAnimation(false),
        };
        proof {
            lemma_fresh_screen(game@);
        }
        (game, labels)
    }

    /// The screen that shows.
    pub fn state(&self) -> (state: AppState)
        ensures
            state == self@.state,
    {
        self.state
    }

    /// The difficulty picked last.
    pub fn difficulty(&self) -> (difficulty: GameDifficultyState)
        ensures
            difficulty == self@.difficulty,
    {
        self.difficulty
    }

    /// The scores.
    pub fn scores(&self) -> (scores: Scores)
        ensures
            scores@ == self@.scores,
    {
        self.scores
    }

    /// The stage.
    pub fn stage(&self) -> (stage: &Stage)
        ensures
            stage@ == self@.stage,
    {
        &self.stage
    }

    /// The weapon.
    pub fn m4(&self) -> (m4: M4)
        ensures
            m4@ == self@.m4,
    {
        self.round.m4
    }

    /// The timer that ends the round.
    pub fn end_game_timer(&self) -> (timer: EndGameTimer)
        ensures
            timer@ == self@.grace,
    {
        self.round.end_game_timer
    }

    /// Whether the weapon's firing animation is switched on.
    pub fn play_animation(&self) -> (play_animation: PlayAnimation)
        ensures
            play_animation.0 == self@.play_animation,
    {
        self.play_animation
    }

    /// Leaves the screen that shows: all that it owns goes.
    fn leave(&mut self)
        ensures
            final(self)@ == (GameView {
                stage: left(old(self)@.stage, old(self)@.state),
                ..old(self)@
            }),
    {
        match self.state {
            AppState::MainMenu => mainmenu_ui::entity_despawner(&mut self.stage),
            AppState::InGame => {
                self.stage.despawn_owned_by(AppState::InGame);
            },
            AppState::GameOver => gameover_ui::entity_despawner(&mut self.stage),
        }
    }

    /// Starts a round of `difficulty`.
    fn start_round(&mut self, difficulty: GameDifficultyState) -> (profile: BallProfile)
        ensures
            final(self)@ == (GameView {
                state: AppState::InGame,
                difficulty,
                scores: old(self)@.scores.started(),
                stage: entered(old(self)@.stage, AppState::InGame, Ball::of(difficulty)),
                m4: Cooldown::Ready,
                grace: GRACE_PERIOD as nat,
                play_animation: old(self)@.play_animation,
                animation: m4_frames(),
            }),
            profile == Ball::of(difficulty).profile(),
    {
        self.state = AppState::InGame;
        self.difficulty = difficulty;
        let (round, profile) = ingame::enter(&mut self.stage, &mut self.scores, difficulty);
        self.round = round;
        profile
    }

    /// Brings the main menu up.
    fn show_main_menu(&mut self) -> (labels: MenuLabels)
        ensures
            final(self)@ == (GameView {
                state: AppState::MainMenu,
                stage: entered(
                    old(self)@.stage,
                    AppState::MainMenu,
                    Ball::of(old(self)@.difficulty),
                ),
                ..old(self)@
            }),
            labels.shows(old(self)@.scores),
    {
        self.state = AppState::MainMenu;
        mainmenu_ui::setup(&mut self.stage, &self.scores)
    }

    /// A change of the interaction with the main menu's button for
    /// `difficulty`. While the main menu shows, the button answers; pressed,
    /// it takes the menu down and starts a round of `difficulty`. While
    /// another screen shows there is no such button: nothing happens.
    pub fn menu_button(&mut self, difficulty: GameDifficultyState, interaction: Interaction) -> (answer:
        (Option<ButtonResponse>, Entered))
        ensures
            old(self)@.state != AppState::MainMenu ==> answer.0 is None,
            old(self)@.state == AppState::MainMenu ==> answer.0 == Some(
                response_of(interaction, AppState::InGame, Some(difficulty)),
            ),
            final(self)@ == old(self)@.after_menu_button(difficulty, interaction),
            final(self)@.state == old(self)@.state ==> answer.1 is Stayed,
            final(self)@.state != old(self)@.state ==> answer.1 == Entered::InGame(
                Ball::of(difficulty).profile(),
            ),
            old(self)@.wf() ==> final(self)@.wf(),
    {
        proof {
            if self@.wf() {
                lemma_buttons_keep_wf(self@, difficulty, GameOverButton::Home, interaction);
            }
        }
        if self.state != AppState::MainMenu {
            return (None, Entered::Stayed);
        }
        let response = match difficulty {
            GameDifficultyState::Easy => mainmenu_ui::easy_button_system(interaction),
            GameDifficultyState::Medium => mainmenu_ui::medium_button_system(interaction),
            GameDifficultyState::Hard => mainmenu_ui::hard_button_system(interaction),
        };
        if response.next_state == Some(AppState::InGame) {
            self.leave();
            let profile = self.start_round(difficulty);
            (Some(response), Entered::InGame(profile))
        } else {
            (Some(response), Entered::Stayed)
        }
    }

    /// A change of the interaction with one of the game-over screen's
    /// buttons. While the game-over screen shows, the button answers; pressed,
    /// it takes the screen down and brings up the main menu, or starts another
    /// round of the difficulty of the last. While another screen shows there
    /// is no such button: nothing happens.
    pub fn gameover_button(&mut self, button: GameOverButton, interaction: Interaction) -> (answer:
        (Option<ButtonResponse>, Entered))
        ensures
            old(self)@.state != AppState::GameOver ==> answer.0 is None,
            old(self)@.state == AppState::GameOver ==> answer.0 == Some(
                response_of(interaction, GameView::target_of(button), None),
            ),
            final(self)@ == old(self)@.after_gameover_button(button, interaction),
            final(self)@.state == old(self)@.state ==> answer.1 is Stayed,
            final(self)@.state != old(self)@.state && button == GameOverButton::Home ==> (
            answer.1 matches Entered::MainMenu(labels) && labels.shows(old(self)@.scores)),
            final(self)@.state != old(self)@.state && button == GameOverButton::Restart
                ==> answer.1 == Entered::InGame(Ball::of(old(self)@.difficulty).profile()),
            old(self)@.wf() ==> final(self)@.wf(),
    {
        proof {
            if self@.wf() {
                lemma_buttons_keep_wf(self@, self@.difficulty, button, interaction);
            }
        }
        if self.state != AppState::GameOver {
            return (None, Entered::Stayed);
        }
        let response = match button {
            GameOverButton::Home => gameover_ui::home_button_system(interaction),
            GameOverButton::Restart => gameover_ui::restart_button_system(interaction),
        };
        match response.next_state {
            Some(AppState::MainMenu) => {
                self.leave();
                let labels = self.show_main_menu();
                (Some(response), Entered::MainMenu(labels))
            },
            Some(AppState::InGame) => {
                self.leave();
                let difficulty = self.difficulty;
                let profile = self.start_round(difficulty);
                (Some(response), Entered::InGame(profile))
            },
            _ => (Some(response), Entered::Stayed),
        }
    }

    /// One frame of a round. The weapon's cooldown runs, then the trigger is
    /// looked at, a hit is scored and thrown, the weapon's animation runs, and
    /// at last the question is put whether the round is over; if it is, the
    /// score is committed and the game-over screen comes up. While another
    /// screen shows, nothing happens and nothing comes back.
    pub fn frame(&mut self, input: FrameInput) -> (output: Option<FrameOutput>)
        requires
            old(self)@.state == AppState::InGame ==> old(self)@.scores.current < i32::MAX,
        ensures
            final(self)@ == old(self)@.after_frame(
                input,
                match output {
                    Some(output) => output.m4_cell,
                    None => None,
                },
            ),
            output is Some <==> old(self)@.state == AppState::InGame,
            output matches Some(output) ==> output.answers(old(self)@, input),
            old(self)@.wf() ==> final(self)@.wf(),
    {
        proof {
            if self@.wf() {
                assert forall|m4_cell: Option<usize>| #[trigger]
                    self@.after_frame(input, m4_cell).wf() by {
                    lemma_frame_keeps_wf(self@, input, m4_cell);
                }
            }
        }
        if self.state != AppState::InGame {
            return None;
        }
        m4_firerate_timer(&mut self.round.m4, input.delta);
        let shot = ball_contact_checker(
            input.just_pressed,
            input.overlap,
            &mut self.round.m4,
            &mut self.play_animation,
        );
        let mut fire: Option<FireEffects> = None;
        let mut contact: Option<ContactEffects> = None;
        let mut jump: Option<Jump> = None;
        match shot {
            Shot::Held => {},
            Shot::Missed => {
                fire = Some(fire_spawn(&mut self.stage));
            },
            Shot::Hit => {
                fire = Some(fire_spawn(&mut self.stage));
                contact = Some(contact_spawn(&mut self.stage));
                jump = Some(ball_movement(&mut self.scores));
            },
        }
        assert(self.stage@ =~= old(self)@.stage + GameView::effects_of(shot));
        let m4_cell = m4_animation(
            input.delta,
            &mut self.round.animation_state,
            &self.round.animation,
            &mut self.play_animation,
        );
        let score_text = ui_update(&self.scores);
        let over = gameover_controller(
            input.ball_height,
            input.delta,
            &mut self.round.end_game_timer,
        );
        let entered = if over {
            entity_despawner(Ball::of(self.difficulty), &mut self.scores, &mut self.stage);
            self.state = AppState::GameOver;
            Entered::GameOver(gameover_ui::setup(&mut self.stage, &self.scores))
        } else {
            Entered::Stayed
        };
        Some(FrameOutput { shot, fire, contact, jump, m4_cell, score_text, entered })
    }

    /// Runs a muzzle flash's lifetime for a frame of `delta` nanoseconds. In
    /// the frame in which the time is up, one flash leaves the stage and the
    /// sound of a casing on the ground is due; the result says so. While
    /// another screen than a round shows, nothing happens.
    pub fn bullet_case_despawn(&mut self, delta: u64, flash: &mut BulletCase) -> (gone: bool)
        ensures
            old(self)@.state != AppState::InGame ==> !gone && *final(flash) == *old(flash)
                && final(self)@ == old(self)@,
            old(self)@.state == AppState::InGame ==> final(flash)@ == run_down(
                old(flash)@,
                delta as nat,
            ),
            old(self)@.state == AppState::InGame ==> gone == (final(flash)@ == 0),
            old(self)@.state == AppState::InGame ==> final(self)@ == (GameView {
                stage: if gone {
                    without_one(old(self)@.stage, EntityKind::Fire)
                } else {
                    old(self)@.stage
                },
                ..old(self)@
            }),
            old(self)@.wf() ==> final(self)@.wf(),
    {
        proof {
            if self@.wf() {
                lemma_flash_end_keeps_wf(self@);
            }
        }
        if self.state != AppState::InGame {
            return false;
        }
        bullet_case_despawn(delta, flash, &mut self.stage)
    }
}

} // verus!
