//! The stage: which entities exist, and which screen owns each.
//!
//! Every entity belongs to one screen. A screen is left by removing all that
//! it owns, and entered by putting up its fixed set afresh, so that screens
//! never leak into each other and nothing is put up twice.

use vstd::prelude::*;

use crate::ingame::spawn::Ball;
use crate::AppState;

verus! {

/// The kinds of entity that the game puts on stage.
#[derive(Debug, Clone, Copy, PartialEq, Eq, Hash, Structural)]
pub enum EntityKind {
    /// The game's title on the main menu.
    Title,
    /// The main menu's button for an easy round, labelled with the easy best.
    EasyButton,
    /// The main menu's button for a medium round.
    MediumButton,
    /// The main menu's button for a hard round.
    HardButton,
    /// The timer that ends the round.
    EndGameTimer,
    /// The backdrop of the round.
    Background,
    /// The weapon.
    M4,
    /// The reticle that follows the cursor.
    CursorCrosshair,
    /// The wall on the right of the field.
    RightWall,
    /// The wall on the left of the field.
    LeftWall,
    /// The running score shown during the round.
    ScoreText,
    /// The ball, of the round's difficulty.
    Ball(Ball),
    /// The muzzle flash of one shot.
    Fire,
    /// The casing thrown out by one shot.
    BulletCase,
    /// The spark where a shot met the ball.
    Contact,
    /// The words "game over".
    GameOverTitle,
    /// The round's score on the game-over screen.
    FinalScore,
    /// The difficulty's best on the game-over screen.
    HighScore,
    /// The game-over screen's button back to the main menu.
    HomeButton,
    /// The game-over screen's button for another round.
    RestartButton,
}

impl EntityKind {
    /// The screen that owns entities of this kind.
    #[verifier::when_used_as_spec(spec_owner)]
    pub fn owner(&self) -> (screen: AppState)
        ensures
            screen == self.spec_owner(),
    {
        match self {
            EntityKind::Title
            | EntityKind::EasyButton
            | EntityKind::MediumButton
            | EntityKind::HardButton => AppState::MainMenu,
            EntityKind::EndGameTimer
            | EntityKind::Background
            | EntityKind::M4
            | EntityKind::CursorCrosshair
            | EntityKind::RightWall
            | EntityKind::LeftWall
            | EntityKind::ScoreText
            | EntityKind::Ball(_)
            | EntityKind::Fire
            | EntityKind::BulletCase
            | EntityKind::Contact => AppState::InGame,
            EntityKind::GameOverTitle
            | EntityKind::FinalScore
            | EntityKind::HighScore
            | EntityKind::HomeButton
            | EntityKind::RestartButton => AppState::GameOver,
        }
    }

    /// The screen that owns entities of this kind.
    pub open spec fn spec_owner(&self) -> AppState {
        match self {
            EntityKind::Title
            | EntityKind::EasyButton
            | EntityKind::MediumButton
            | EntityKind::HardButton => AppState::MainMenu,
            EntityKind::EndGameTimer
            | EntityKind::Background
            | EntityKind::M4
            | EntityKind::CursorCrosshair
            | EntityKind::RightWall
            | EntityKind::LeftWall
            | EntityKind::ScoreText
            | EntityKind::Ball(_)
            | EntityKind::Fire
            | EntityKind::BulletCase
            | EntityKind::Contact => AppState::InGame,
            EntityKind::GameOverTitle
            | EntityKind::FinalScore
            | EntityKind::HighScore
            | EntityKind::HomeButton
            | EntityKind::RestartButton => AppState::GameOver,
        }
    }
}

/// The test that keeps what `screen` does not own.
pub open spec fn not_owned_by(screen: AppState) -> spec_fn(EntityKind) -> bool {
    |kind: EntityKind| kind.owner() != screen
}

/// How many entities of `kind` there are among `kinds`.
pub open spec fn count_of(kinds: Seq<EntityKind>, kind: EntityKind) -> nat
    decreases kinds.len(),
{
    if kinds.len() == 0 {
        0
    } else if kinds.last() == kind {
        count_of(kinds.drop_last(), kind) + 1
    } else {
        count_of(kinds.drop_last(), kind)
    }
}

/// The main menu's fixed set: the title and the three buttons.
pub open spec fn main_menu_set() -> Seq<EntityKind> {
    seq![
        EntityKind::Title,
        EntityKind::EasyButton,
        EntityKind::MediumButton,
        EntityKind::HardButton,
    ]
}

/// The part of a round's fixed set that is the same for every ball: the timer,
/// the backdrop, the weapon, the reticle and the two walls.
pub open spec fn round_base() -> Seq<EntityKind> {
    seq![
        EntityKind::EndGameTimer,
        EntityKind::Background,
        EntityKind::M4,
        EntityKind::CursorCrosshair,
        EntityKind::RightWall,
        EntityKind::LeftWall,
    ]
}

/// A round's fixed set: its base, the score display and the ball.
pub open spec fn round_set(ball: Ball) -> Seq<EntityKind> {
    round_base().push(EntityKind::ScoreText).push(EntityKind::Ball(ball))
}

/// The game-over screen's fixed set: the title, the two scores and the two
/// buttons.
pub open spec fn game_over_set() -> Seq<EntityKind> {
    seq![
        EntityKind::GameOverTitle,
        EntityKind::FinalScore,
        EntityKind::HighScore,
        EntityKind::HomeButton,
        EntityKind::RestartButton,
    ]
}

/// The fixed set of a screen: what is on stage, in this order, whenever the
/// screen has just been entered. A round's set holds the ball `ball`; the
/// other screens' sets do not depend on it.
pub open spec fn fixed_set(screen: AppState, ball: Ball) -> Seq<EntityKind> {
    match screen {
        AppState::MainMenu => main_menu_set(),
        AppState::InGame => round_set(ball),
        AppState::GameOver => game_over_set(),
    }
}

/// The stage after `screen` has been left: all that it owned is gone, the rest
/// is as it was.
pub open spec fn left(kinds: Seq<EntityKind>, screen: AppState) -> Seq<EntityKind> {
    kinds.filter(not_owned_by(screen))
}

/// The stage after `screen` has been entered: whatever it still owned is gone,
/// and its fixed set stands behind the rest.
pub open spec fn entered(kinds: Seq<EntityKind>, screen: AppState, ball: Ball) -> Seq<EntityKind> {
    left(kinds, screen) + fixed_set(screen, ball)
}

/// The place of the first entity of `kind` among `kinds`, or the length of
/// `kinds` where there is none.
pub open spec fn first_of(kinds: Seq<EntityKind>, kind: EntityKind) -> int
    decreases kinds.len(),
{
    if kinds.len() == 0 {
        0
    } else if kinds.first() == kind {
        0
    } else {
        1 + first_of(kinds.drop_first(), kind)
    }
}

/// The stage without the first entity of `kind`; as it is, where there is
/// none.
pub open spec fn without_one(kinds: Seq<EntityKind>, kind: EntityKind) -> Seq<EntityKind> {
    if first_of(kinds, kind) < kinds.len() {
        kinds.remove(first_of(kinds, kind))
    } else {
        kinds
    }
}

/// The entities on stage, in the order in which they were put up. The view is
/// the sequence of their kinds.
#[derive(Debug)]
pub struct Stage {
    entities: Vec<EntityKind>,
}

impl View for Stage {
    type V = Seq<EntityKind>;

    closed spec fn view(&self) -> Seq<EntityKind> {
        self.entities@
    }
}

impl Stage {
    /// An empty stage.
    pub fn new() -> (stage: Stage)
        ensures
            stage@ == Seq::<EntityKind>::empty(),
    {
        Stage { entities: Vec::new() }
    }

    /// The number of entities on stage.
    pub fn len(&self) -> (len: usize)
        ensures
            len == self@.len(),
    {
        self.entities.len()
    }

    /// The kind of the `index`-th entity, if there are that many.
    pub fn get(&self, index: usize) -> (kind: Option<EntityKind>)
        ensures
            kind == if index < self@.len() {
                Some(self@[index as int])
            } else {
                None
            },
    {
        if index < self.entities.len() {
            Some(self.entities[index])
        } else {
            None
        }
    }

    /// Puts one more entity of `kind` on stage.
    pub fn spawn(&mut self, kind: EntityKind)
        ensures
            final(self)@ == old(self)@.push(kind),
    {
        self.entities.push(kind);
    }

    /// How many entities of `kind` are on stage.
    pub fn count(&self, kind: EntityKind) -> (count: usize)
        ensures
            count == count_of(self@, kind),
    {
        let mut count: usize = 0;
        let mut index: usize = 0;
        while index < self.entities.len()
            invariant
                index <= self.entities@.len(),
                count <= index,
                count == count_of(self.entities@.take(index as int), kind),
            decreases self.entities@.len() - index,
        {
            proof {
                let next = self.entities@.take(index + 1);
                assert(next.drop_last() =~= self.entities@.take(index as int));
                assert(next.last() == self.entities@[index as int]);
            }
            if self.entities[index] == kind {
                count = count + 1;
            }
            index = index + 1;
        }
        assert(self.entities@.take(index as int) =~= self.entities@);
        count
    }

    /// Removes the entity of `kind` that has been on stage the longest, if
    /// there is one, and says whether there was.
    pub fn despawn_one(&mut self, kind: EntityKind) -> (found: bool)
        ensures
            final(self)@ == without_one(old(self)@, kind),
            found == (count_of(old(self)@, kind) > 0),
    {
        let mut index: usize = 0;
        assert(self.entities@.skip(0) =~= self.entities@);
        while index < self.entities.len()
            invariant
                index <= self.entities@.len(),
                *self == *old(self),
                forall|i: int| 0 <= i < index ==> self.entities@[i] != kind,
                first_of(self.entities@, kind) == index + first_of(
                    self.entities@.skip(index as int),
                    kind,
                ),
            decreases self.entities@.len() - index,
        {
            let ghost rest = self.entities@.skip(index as int);
            assert(rest.first() == self.entities@[index as int]);
            assert(rest.drop_first() =~= self.entities@.skip(index + 1));
            if self.entities[index] == kind {
                proof {
                    lemma_count_of_present(self.entities@, kind, index as int);
                }
                self.entities.remove(index);
                return true;
            }
            index = index + 1;
        }
        proof {
            lemma_count_of_absent(self.entities@, kind);
        }
        false
    }

    /// Removes everything that `screen` owns and leaves the rest as it is, in
    /// its order. Returns how many entities went.
    pub fn despawn_owned_by(&mut self, screen: AppState) -> (gone: usize)
        ensures
            final(self)@ == left(old(self)@, screen),
            gone == old(self)@.len() - final(self)@.len(),
    {
        let mut kept: Vec<EntityKind> = Vec::new();
        let mut index: usize = 0;
        while index < self.entities.len()
            invariant
                index <= self.entities@.len(),
                kept@ == self.entities@.take(index as int).filter(not_owned_by(screen)),
                kept@.len() <= index,
            decreases self.entities@.len() - index,
        {
            proof {
                reveal(Seq::filter);
                let next = self.entities@.take(index + 1);
                assert(next.drop_last() =~= self.entities@.take(index as int));
                assert(next.last() == self.entities@[index as int]);
            }
            let kind = self.entities[index];
            if kind.owner() != screen {
                kept.push(kind);
            }
            index = index + 1;
        }
        assert(self.entities@.take(index as int) =~= self.entities@);
        let gone = self.entities.len() - kept.len();
        self.entities = kept;
        gone
    }
}

/// Counting over two stretches of stage adds up.
pub proof fn lemma_count_of_add(front: Seq<EntityKind>, back: Seq<EntityKind>, kind: EntityKind)
    ensures
        count_of(front + back, kind) == count_of(front, kind) + count_of(back, kind),
    decreases back.len(),
{
    if back.len() == 0 {
        assert(front + back =~= front);
    } else {
        lemma_count_of_add(front, back.drop_last(), kind);
        assert((front + back).drop_last() =~= front + back.drop_last());
        assert((front + back).last() == back.last());
    }
}

/// A sequence whose every element passes a test is its own filter by it.
proof fn lemma_filter_keeps_what_passes(kinds: Seq<EntityKind>, test: spec_fn(EntityKind) -> bool)
    requires
        forall|i: int| 0 <= i < kinds.len() ==> test(#[trigger] kinds[i]),
    ensures
        kinds.filter(test) == kinds,
    decreases kinds.len(),
{
    reveal(Seq::filter);
    if kinds.len() > 0 {
        lemma_filter_keeps_what_passes(kinds.drop_last(), test);
        assert(kinds.drop_last().push(kinds.last()) =~= kinds);
    }
}

/// Once a screen has been left, nothing of what it owns is on stage.
pub proof fn lemma_left_holds_nothing_owned(
    kinds: Seq<EntityKind>,
    screen: AppState,
    kind: EntityKind,
)
    requires
        kind.owner() == screen,
    ensures
        count_of(left(kinds, screen), kind) == 0,
    decreases kinds.len(),
{
    reveal(Seq::filter);
    if kinds.len() > 0 {
        lemma_left_holds_nothing_owned(kinds.drop_last(), screen, kind);
        if not_owned_by(screen)(kinds.last()) {
            let rest = left(kinds.drop_last(), screen);
            assert(left(kinds, screen) == rest.push(kinds.last()));
            assert(rest.push(kinds.last()).drop_last() =~= rest);
        }
    }
}

/// Leaving a screen does not touch what other screens own.
pub proof fn lemma_left_keeps_the_others(kinds: Seq<EntityKind>, screen: AppState, kind: EntityKind)
    requires
        kind.owner() != screen,
    ensures
        count_of(left(kinds, screen), kind) == count_of(kinds, kind),
    decreases kinds.len(),
{
    reveal(Seq::filter);
    if kinds.len() > 0 {
        lemma_left_keeps_the_others(kinds.drop_last(), screen, kind);
        if not_owned_by(screen)(kinds.last()) {
            let rest = left(kinds.drop_last(), screen);
            assert(left(kinds, screen) == rest.push(kinds.last()));
            assert(rest.push(kinds.last()).drop_last() =~= rest);
        }
    }
}

/// A screen's fixed set holds each of its kinds once, and the screen owns them
/// all.
pub proof fn lemma_fixed_set_holds_each_once(screen: AppState, ball: Ball, kind: EntityKind)
    requires
        fixed_set(screen, ball).contains(kind),
    ensures
        count_of(fixed_set(screen, ball), kind) == 1,
        kind.owner() == screen,
{
    let set = fixed_set(screen, ball);
    let at = choose|i: int| 0 <= i < set.len() && set[i] == kind;
    assert(set[at] == kind);
    reveal_with_fuel(count_of, 9);
    assert(set.drop_last().len() == set.len() - 1);
    match screen {
        AppState::MainMenu => {
            lemma_count_by_hand(set, kind, 4);
        },
        AppState::InGame => {
            lemma_count_by_hand(set, kind, 8);
        },
        AppState::GameOver => {
            lemma_count_by_hand(set, kind, 5);
        },
    }
}

/// In a sequence without repeats, an element that occurs is there once. The
/// bound `upto` is the length, so that short sequences settle by unfolding.
proof fn lemma_count_by_hand(kinds: Seq<EntityKind>, kind: EntityKind, upto: nat)
    requires
        kinds.len() == upto,
        kinds.contains(kind),
        forall|i: int, j: int|
            0 <= i < j < kinds.len() ==> #[trigger] kinds[i] != #[trigger] kinds[j],
    ensures
        count_of(kinds, kind) == 1,
    decreases upto,
{
    let rest = kinds.drop_last();
    if kinds.last() == kind {
        lemma_count_of_absent(rest, kind);
    } else {
        let at = choose|i: int| 0 <= i < kinds.len() && kinds[i] == kind;
        assert(rest[at] == kind);
        lemma_count_by_hand(rest, kind, (upto - 1) as nat);
    }
}

/// A kind that occurs is counted at least once.
proof fn lemma_count_of_present(kinds: Seq<EntityKind>, kind: EntityKind, at: int)
    requires
        0 <= at < kinds.len(),
        kinds[at] == kind,
    ensures
        count_of(kinds, kind) > 0,
    decreases kinds.len(),
{
    if at < kinds.len() - 1 {
        lemma_count_of_present(kinds.drop_last(), kind, at);
    }
}

/// A kind that does not occur is counted zero times.
pub proof fn lemma_count_of_absent(kinds: Seq<EntityKind>, kind: EntityKind)
    requires
        forall|i: int| 0 <= i < kinds.len() ==> #[trigger] kinds[i] != kind,
    ensures
        count_of(kinds, kind) == 0,
    decreases kinds.len(),
{
    if kinds.len() > 0 {
        lemma_count_of_absent(kinds.drop_last(), kind);
    }
}

/// Taking one entity off the stage leaves the count of every other kind.
pub proof fn lemma_without_one_keeps_the_others(
    kinds: Seq<EntityKind>,
    gone: EntityKind,
    kind: EntityKind,
)
    requires
        kind != gone,
    ensures
        count_of(without_one(kinds, gone), kind) == count_of(kinds, kind),
{
    let at = first_of(kinds, gone);
    lemma_first_of_finds(kinds, gone);
    if at < kinds.len() {
        let front = kinds.take(at);
        let back = kinds.skip(at + 1);
        assert(kinds.remove(at) =~= front + back);
        assert(kinds =~= front + seq![gone] + back);
        lemma_count_of_add(front, back, kind);
        lemma_count_of_add(front + seq![gone], back, kind);
        lemma_count_of_add(front, seq![gone], kind);
        assert(count_of(seq![gone], kind) == 0) by {
            reveal_with_fuel(count_of, 2);
        }
    }
}

/// Taking one entity of a kind off the stage removes the first of that kind,
/// or nothing where there is none.
pub proof fn lemma_without_one_is_a_removal(kinds: Seq<EntityKind>, gone: EntityKind)
    ensures
        0 <= first_of(kinds, gone) <= kinds.len(),
        first_of(kinds, gone) < kinds.len() ==> kinds[first_of(kinds, gone)] == gone
            && without_one(kinds, gone) == kinds.remove(first_of(kinds, gone)),
        first_of(kinds, gone) == kinds.len() ==> without_one(kinds, gone) == kinds,
{
    lemma_first_of_finds(kinds, gone);
}

/// The first place of a kind is within the sequence or at its end, and where
/// it is within, the kind is there.
proof fn lemma_first_of_finds(kinds: Seq<EntityKind>, kind: EntityKind)
    ensures
        0 <= first_of(kinds, kind) <= kinds.len(),
        first_of(kinds, kind) < kinds.len() ==> kinds[first_of(kinds, kind)] == kind,
    decreases kinds.len(),
{
    if kinds.len() > 0 && kinds.first() != kind {
        lemma_first_of_finds(kinds.drop_first(), kind);
    }
}

/// Entering a screen puts up exactly one of each entity of its fixed set,
/// whatever was on stage before: also when the screen is entered again
/// without having been left.
pub proof fn lemma_entering_puts_up_each_once(
    kinds: Seq<EntityKind>,
    screen: AppState,
    ball: Ball,
    kind: EntityKind,
)
    requires
        fixed_set(screen, ball).contains(kind),
    ensures
        count_of(entered(kinds, screen, ball), kind) == 1,
{
    lemma_fixed_set_holds_each_once(screen, ball, kind);
    lemma_left_holds_nothing_owned(kinds, screen, kind);
    lemma_count_of_add(left(kinds, screen), fixed_set(screen, ball), kind);
}

/// Entering a screen does not touch what other screens own.
pub proof fn lemma_entering_keeps_the_others(
    kinds: Seq<EntityKind>,
    screen: AppState,
    ball: Ball,
    kind: EntityKind,
)
    requires
        kind.owner() != screen,
    ensures
        count_of(entered(kinds, screen, ball), kind) == count_of(kinds, kind),
{
    lemma_left_keeps_the_others(kinds, screen, kind);
    lemma_count_of_add(left(kinds, screen), fixed_set(screen, ball), kind);
    assert(count_of(fixed_set(screen, ball), kind) == 0) by {
        assert forall|i: int| 0 <= i < fixed_set(screen, ball).len() implies #[trigger] fixed_set(
            screen,
            ball,
        )[i] != kind by {
            let other = fixed_set(screen, ball)[i];
            assert(fixed_set(screen, ball).contains(other));
            lemma_fixed_set_holds_each_once(screen, ball, other);
        }
        lemma_count_of_absent(fixed_set(screen, ball), kind);
    }
}

/// Entering a screen twice in a row leaves the stage as entering it once: the
/// second entry, with whatever ball, replaces the first and adds nothing.
pub proof fn lemma_entering_again_replaces(
    kinds: Seq<EntityKind>,
    screen: AppState,
    first: Ball,
    second: Ball,
)
    ensures
        entered(entered(kinds, screen, first), screen, second) == entered(kinds, screen, second),
{
    let test = not_owned_by(screen);
    let rest = left(kinds, screen);
    let set = fixed_set(screen, first);
    Seq::filter_distributes_over_add(rest, set, test);
    assert(rest.filter(test) == rest) by {
        broadcast use vstd::seq_lib::group_filter_ensures;

        lemma_filter_keeps_what_passes(rest, test);
    }
    assert(set.filter(test) =~= Seq::<EntityKind>::empty()) by {
        assert forall|kind: EntityKind| #[trigger] set.contains(kind) implies !test(kind) by {
            lemma_fixed_set_holds_each_once(screen, first, kind);
        }
        set.lemma_all_neg_filter_empty(test);
    }
    assert(rest + Seq::<EntityKind>::empty() =~= rest);
}

} // verus!
