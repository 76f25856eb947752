use minigolf::events::Effect;
use minigolf::events::course_over_text;
use minigolf::events::GameEvent;
use minigolf::game::Game;
use minigolf::game::consume_events;
use minigolf::geom::Vec2i;
use minigolf::level::level_step;
use minigolf::level_data::Levels;
use minigolf::level_data::build_level;
use minigolf::level_data::level_1;
use minigolf::lives::Lives;
use minigolf::states::AppState;
use minigolf::states::CourseState;
use minigolf::states::LevelState;

fn hit() -> GameEvent {
    GameEvent::BallHit { speed: 510 }
}

use GameEvent::BallEnteredGoal;
use GameEvent::BallOutOfBounds;
use GameEvent::BallStopped;
use LevelState::Failed;
use LevelState::InPlay;
use LevelState::LoadNext;
use LevelState::Playable;
use LevelState::Won;

#[test]
fn the_transition_table() {
    // Handled pairs.
    assert_eq!(level_step(Playable, hit(), 2), (InPlay, false));
    assert_eq!(level_step(InPlay, BallEnteredGoal, 2), (Won, false));
    assert_eq!(level_step(InPlay, BallOutOfBounds, 2), (Playable, true));
    assert_eq!(level_step(InPlay, BallStopped, 1), (Playable, false));
    assert_eq!(level_step(InPlay, BallStopped, 0), (Failed, false));
}

#[test]
fn unhandled_pairs_are_no_ops() {
    for s in [Playable, InPlay, Won, Failed, LoadNext] {
        for e in [hit(), BallStopped, BallOutOfBounds, BallEnteredGoal] {
            let handled = match (s, e) {
                (Playable, GameEvent::BallHit { .. }) => true,
                (InPlay, BallEnteredGoal) => true,
                (InPlay, BallOutOfBounds) => true,
                (InPlay, BallStopped) => true,
                _ => false,
            };
            if !handled {
                for lives in [0u32, 1, 2] {
                    assert_eq!(level_step(s, e, lives), (s, false), "{:?} {:?}", s, e);
                }
            }
        }
    }
}

fn one_hole_game() -> Game {
    let level = build_level(&level_1()).expect("the shipped hole must build");
    Game::new(Levels(vec![level]), Lives(2))
}

#[test]
fn booting_activates_the_first_hole() {
    let mut game = one_hole_game();
    assert_eq!(game.app_state, AppState::Menu);
    let effects = game.apply_transitions();
    assert_eq!(
        effects,
        vec![
            Effect::ActivateLevel { index: 0 },
            Effect::ResetBall { tee: Vec2i { x: -620, y: 505 } },
        ]
    );
    assert_eq!(game.level_index, 0);
    // The hole behind the menu becomes playable at the next boundary.
    let effects = game.apply_transitions();
    assert!(effects.is_empty());
    assert_eq!(game.level_state, LevelState::Playable);
}

#[test]
fn entering_the_game_resumes_playing() {
    let mut game = one_hole_game();
    game.apply_transitions();
    game.apply_transitions();
    game.pending_app = Some(AppState::InGame);
    game.apply_transitions();
    assert_eq!(game.app_state, AppState::InGame);
    assert_eq!(game.pending_course, Some(CourseState::Playing));
    game.lives_left.0 = 0;
    game.apply_transitions();
    assert_eq!(game.course_state, CourseState::Playing);
    // Entering `Playing` restores the lives.
    assert_eq!(game.lives_left.0, 2);
}

#[test]
fn a_failed_hole_fails_the_course() {
    let mut game = one_hole_game();
    game.apply_transitions();
    game.pending_level = Some(LevelState::Failed);
    game.apply_transitions();
    assert_eq!(game.level_state, LevelState::Failed);
    let effects = game.apply_transitions();
    assert_eq!(game.course_state, CourseState::Failed);
    assert_eq!(effects, vec![Effect::ShowCourseOverlay { won: false }]);
}

#[test]
fn the_last_hole_won_wins_the_course() {
    let mut game = one_hole_game();
    game.apply_transitions();
    game.pending_level = Some(LevelState::LoadNext);
    game.apply_transitions();
    // A single-hole course has no further hole to advance to.
    let effects = game.apply_transitions();
    assert_eq!(game.course_state, CourseState::Won);
    assert_eq!(effects, vec![Effect::ShowCourseOverlay { won: true }]);
}

#[test]
fn winning_a_hole_cuts_the_bounciness_and_arms_the_delay() {
    let mut game = one_hole_game();
    game.apply_transitions();
    game.pending_level = Some(LevelState::Won);
    let effects = game.apply_transitions();
    assert_eq!(game.level_state, LevelState::Won);
    assert_eq!(game.win_timer_ms, 2000);
    assert_eq!(effects, vec![Effect::ReduceBallBounciness]);
}

#[test]
fn the_overlay_headlines() {
    assert_eq!(course_over_text(true), "Le Epic Win!");
    assert_eq!(course_over_text(false), "GAME OVER");
}

#[test]
fn the_event_fold_spends_the_last_life_before_the_stop() {
    // A hit at one life leaves zero; the stop on the same tick then fails
    // the hole.
    let events = vec![hit(), BallStopped];
    let (state, lives, reset) = consume_events(Playable, 1, &events);
    assert_eq!(state, Failed);
    assert_eq!(lives, 0);
    assert!(!reset);
}

#[test]
fn the_event_fold_keeps_lives_on_a_free_reset() {
    let events = vec![BallOutOfBounds, BallStopped];
    let (state, lives, reset) = consume_events(InPlay, 1, &events);
    assert_eq!(state, Playable);
    assert_eq!(lives, 1);
    assert!(reset);
}

#[test]
fn the_event_fold_lets_the_goal_win_over_the_stop() {
    let events = vec![BallEnteredGoal, BallStopped];
    let (state, lives, reset) = consume_events(InPlay, 0, &events);
    assert_eq!(state, Won);
    assert_eq!(lives, 0);
    assert!(!reset);
}
