use minigolf::bridge::BallObservation;
use minigolf::bridge::LevelBounds;
use minigolf::events::Effect;
use minigolf::events::GameEvent;
use minigolf::game::FrameInput;
use minigolf::game::Game;
use minigolf::geom::Vec2i;
use minigolf::level_data::Levels;
use minigolf::level_data::build_level;
use minigolf::level_data::level_1;
use minigolf::level_data::load_levels;
use minigolf::lives::Lives;
use minigolf::states::AppState;
use minigolf::states::CourseState;
use minigolf::states::LevelState;
use minigolf::states::PhysicsState;
use minigolf::states::SwingState;

fn v(x: i64, y: i64) -> Vec2i {
    Vec2i { x, y }
}

/// The first hole's tee, in half-units.
const TEE: Vec2i = Vec2i { x: -620, y: 505 };

/// The first hole's goal pocket corner, in half-units.
const GOAL: Vec2i = Vec2i { x: 480, y: 440 };

fn input(pos: Vec2i, asleep: bool) -> FrameInput {
    FrameInput {
        dt_ms: 16,
        pointer_pressed: false,
        pointer_released: false,
        pointer: v(0, 0),
        ball: BallObservation { pos, asleep },
        bounds: LevelBounds { min: v(-800, -700), max: v(800, 700) },
        toggle_pause: false,
    }
}

fn quiet() -> FrameInput {
    input(TEE, false)
}

/// One whole frame: the tick boundary, then the tick itself.
fn frame(game: &mut Game, i: FrameInput) -> Vec<Effect> {
    let mut effects = game.apply_transitions();
    let (tick_effects, _events) = game.tick(i);
    effects.extend(tick_effects);
    effects
}

fn one_hole_game(lives: u32) -> Game {
    let level = build_level(&level_1()).expect("the shipped hole must build");
    Game::new(Levels(vec![level]), Lives(lives))
}

/// Boots the game and clicks through the menu until the hole is playable.
fn enter_game(game: &mut Game) {
    frame(game, quiet());
    let mut click = quiet();
    click.pointer_released = true;
    frame(game, click);
    frame(game, quiet());
    frame(game, quiet());
    frame(game, quiet());
    assert_eq!(game.app_state, AppState::InGame);
    assert_eq!(game.course_state, CourseState::Playing);
    assert_eq!(game.level_state, LevelState::Playable);
}

/// Presses at the tee and releases after a 150 half-unit drag: power 3.
fn swing_power_3(game: &mut Game) {
    let mut press = quiet();
    press.pointer_pressed = true;
    press.pointer = v(0, 0);
    frame(game, press);
    assert_eq!(game.swing.state, SwingState::WindingUp);
    let mut release = quiet();
    release.pointer_released = true;
    release.pointer = v(-150, 0);
    let effects = frame(game, release);
    assert!(effects.contains(&Effect::LaunchBall { dir: v(150, 0), power: 3 }));
}

/// The ball settles: the sleep flag rises on the second frame.
fn stop_ball(game: &mut Game, pos: Vec2i) {
    frame(game, input(pos, false));
    frame(game, input(pos, true));
}

#[test]
fn two_misses_fail_the_single_hole_course() {
    // One hole, two lives.  Both attempts stop short of the goal: after
    // the second stop the hole has failed, and with it the course.
    let mut game = one_hole_game(2);
    enter_game(&mut game);
    assert_eq!(game.lives_left.0, 2);

    swing_power_3(&mut game);
    assert_eq!(game.lives_left.0, 1);
    frame(&mut game, input(v(0, 0), false));
    assert_eq!(game.level_state, LevelState::InPlay);
    stop_ball(&mut game, v(0, 0));
    frame(&mut game, input(v(0, 0), true));
    assert_eq!(game.level_state, LevelState::Playable);
    assert_eq!(game.lives_left.0, 1);

    swing_power_3(&mut game);
    assert_eq!(game.lives_left.0, 0);
    frame(&mut game, input(v(0, 0), false));
    assert_eq!(game.level_state, LevelState::InPlay);
    stop_ball(&mut game, v(0, 0));
    frame(&mut game, input(v(0, 0), true));
    assert_eq!(game.level_state, LevelState::Failed);
    let effects = frame(&mut game, input(v(0, 0), true));
    assert_eq!(game.course_state, CourseState::Failed);
    assert!(effects.contains(&Effect::ShowCourseOverlay { won: false }));
}

#[test]
fn crossing_the_goal_wins_even_while_stopping() {
    // The ball crosses the goal sensor on the very frame its sleep flag
    // rises: goal detection comes first, so the hole is won, not failed.
    let mut game = one_hole_game(2);
    enter_game(&mut game);
    swing_power_3(&mut game);
    frame(&mut game, input(v(0, 0), false));
    assert_eq!(game.level_state, LevelState::InPlay);

    let in_goal = v(GOAL.x + 50, GOAL.y + 50);
    frame(&mut game, input(in_goal, true));
    let effects = frame(&mut game, input(in_goal, true));
    assert_eq!(game.level_state, LevelState::Won);
    assert!(effects.contains(&Effect::ReduceBallBounciness));
    // The delay was armed at the boundary; the same frame's tick already
    // consumed its 16 ms.
    assert_eq!(game.win_timer_ms, 2000 - 16);
}

#[test]
fn out_of_bounds_is_a_free_reset() {
    // The ball leaves the play bounds while in play: it returns to the
    // tee with no life spent, and the hole is playable again.
    let mut game = one_hole_game(2);
    enter_game(&mut game);
    swing_power_3(&mut game);
    frame(&mut game, input(v(0, 0), false));
    assert_eq!(game.level_state, LevelState::InPlay);
    let lives_before = game.lives_left.0;

    let effects = frame(&mut game, input(v(900, 0), false));
    assert!(effects.contains(&Effect::ResetBall { tee: TEE }));
    frame(&mut game, quiet());
    assert_eq!(game.level_state, LevelState::Playable);
    assert_eq!(game.lives_left.0, lives_before);
}

#[test]
fn returning_through_the_menu_rewinds_the_course() {
    // Win hole 0 of the full course, advance to hole 1 and spend a life
    // there; then go back to the menu and re-enter the game: the course
    // restarts at hole 0 with full lives.
    let levels = load_levels().expect("the shipped course must load");
    let tee1 = levels.0[1].tee;
    let mut game = Game::new(levels, Lives(2));
    enter_game(&mut game);
    swing_power_3(&mut game);
    frame(&mut game, input(v(0, 0), false));
    let in_goal = v(GOAL.x + 50, GOAL.y + 50);
    frame(&mut game, input(in_goal, true));
    frame(&mut game, input(in_goal, true));
    assert_eq!(game.level_state, LevelState::Won);

    // The success delay elapses; the next hole is activated.
    let mut long = input(in_goal, true);
    long.dt_ms = 2000;
    frame(&mut game, long);
    frame(&mut game, input(in_goal, true));
    assert_eq!(game.level_state, LevelState::LoadNext);
    let effects = frame(&mut game, input(in_goal, true));
    assert!(effects.contains(&Effect::ActivateLevel { index: 1 }));
    assert!(effects.contains(&Effect::ResetBall { tee: tee1 }));
    assert_eq!(game.level_index, 1);
    frame(&mut game, quiet());
    frame(&mut game, quiet());
    assert_eq!(game.level_state, LevelState::Playable);
    assert_eq!(game.lives_left.0, 2);

    // Spend a life on hole 1, then ask for the menu (as the host does on
    // an overlay click).
    swing_power_3(&mut game);
    assert_eq!(game.lives_left.0, 1);
    game.pending_app = Some(AppState::Menu);
    let effects = frame(&mut game, quiet());
    assert_eq!(game.app_state, AppState::Menu);
    assert_eq!(game.level_index, 0);
    assert!(effects.contains(&Effect::ActivateLevel { index: 0 }));

    // Back into the game: hole 0, full lives.
    let mut click = quiet();
    click.pointer_released = true;
    frame(&mut game, click);
    frame(&mut game, quiet());
    frame(&mut game, quiet());
    frame(&mut game, quiet());
    assert_eq!(game.app_state, AppState::InGame);
    assert_eq!(game.level_index, 0);
    assert_eq!(game.lives_left.0, 2);
    assert_eq!(game.level_state, LevelState::Playable);
}

#[test]
fn the_overlay_click_returns_to_the_menu() {
    let mut game = one_hole_game(2);
    enter_game(&mut game);
    game.pending_level = Some(LevelState::Failed);
    frame(&mut game, quiet());
    frame(&mut game, quiet());
    assert_eq!(game.course_state, CourseState::Failed);
    let mut click = quiet();
    click.pointer_released = true;
    frame(&mut game, click);
    frame(&mut game, quiet());
    assert_eq!(game.app_state, AppState::Menu);
}

#[test]
fn the_pause_toggle_freezes_and_resumes() {
    let mut game = one_hole_game(2);
    enter_game(&mut game);
    let mut toggle = quiet();
    toggle.toggle_pause = true;
    let effects = frame(&mut game, toggle);
    assert_eq!(game.physics_state, PhysicsState::Paused);
    assert!(effects.contains(&Effect::PausePhysics));
    let mut toggle = quiet();
    toggle.toggle_pause = true;
    let effects = frame(&mut game, toggle);
    assert_eq!(game.physics_state, PhysicsState::Running);
    assert!(effects.contains(&Effect::UnpausePhysics));
}

#[test]
fn a_hit_event_carries_the_launch_speed() {
    // Speed is the power times the launch factor: 3 * 170 with no
    // floating point involved.
    let mut game = one_hole_game(2);
    enter_game(&mut game);
    let mut press = quiet();
    press.pointer_pressed = true;
    frame(&mut game, press);
    let mut release = quiet();
    release.pointer_released = true;
    release.pointer = v(-150, 0);
    game.apply_transitions();
    let (effects, events) = game.tick(release);
    assert!(effects.contains(&Effect::LaunchBall { dir: v(150, 0), power: 3 }));
    assert_eq!(events, vec![GameEvent::BallHit { speed: 510 }]);
    frame(&mut game, quiet());
    assert_eq!(game.level_state, LevelState::InPlay);
}
