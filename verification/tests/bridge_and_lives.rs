use minigolf::bridge::BallObservation;
use minigolf::bridge::LevelBounds;
use minigolf::bridge::ball_in_goal_check;
use minigolf::bridge::bridge_events;
use minigolf::events::GameEvent;
use minigolf::geom::Vec2i;
use minigolf::lives::Lives;
use minigolf::lives::LivesLeft;
use minigolf::states::LevelState;

fn v(x: i64, y: i64) -> Vec2i {
    Vec2i { x, y }
}

fn bounds() -> LevelBounds {
    LevelBounds { min: v(-700, -600), max: v(700, 600) }
}

#[test]
fn a_hit_spends_exactly_one_attempt() {
    let mut left = LivesLeft(2);
    assert!(left.react_to_ball_hit());
    assert_eq!(left.0, 1);
    assert!(left.react_to_ball_hit());
    assert_eq!(left.0, 0);
}

#[test]
fn lives_never_go_negative() {
    let mut left = LivesLeft(0);
    assert!(!left.react_to_ball_hit());
    assert_eq!(left.0, 0);
}

#[test]
fn reset_restores_the_configured_count() {
    let mut left = LivesLeft(0);
    left.reset(&Lives(2));
    assert_eq!(left.0, 2);
}

#[test]
fn goal_overlap_on_the_edges() {
    let goal = v(0, 0);  // pocket spans 0..100, centre (50, 50)
    assert!(ball_in_goal_check(v(50, 50), goal));
    // Side reach: centre distance 65 with the other axis aligned.
    assert!(ball_in_goal_check(v(115, 50), goal));
    assert!(!ball_in_goal_check(v(116, 50), goal));
    // Corner reach: the ball touches only within its radius of the corner.
    assert!(ball_in_goal_check(v(110, 110), goal));
    assert!(!ball_in_goal_check(v(111, 111), goal));
}

#[test]
fn events_come_in_priority_order() {
    // A goal pocket placed outside the play bounds, with the ball settling
    // on it: all three events fire, goal entry first.
    let obs = BallObservation { pos: v(750, 50), asleep: true };
    let events = bridge_events(LevelState::InPlay, obs, false, bounds(), v(700, 0));
    assert_eq!(
        events,
        vec![
            GameEvent::BallEnteredGoal,
            GameEvent::BallOutOfBounds,
            GameEvent::BallStopped,
        ]
    );
}

#[test]
fn nothing_fires_unless_the_hole_is_in_play() {
    let obs = BallObservation { pos: v(750, 50), asleep: true };
    let events = bridge_events(LevelState::Playable, obs, false, bounds(), v(700, 0));
    assert!(events.is_empty());
    let events = bridge_events(LevelState::Won, obs, false, bounds(), v(700, 0));
    assert!(events.is_empty());
}

#[test]
fn the_stop_event_fires_only_on_the_sleep_edge() {
    let obs = BallObservation { pos: v(0, 0), asleep: true };
    let rising = bridge_events(LevelState::InPlay, obs, false, bounds(), v(10_000, 0));
    assert_eq!(rising, vec![GameEvent::BallStopped]);
    let held = bridge_events(LevelState::InPlay, obs, true, bounds(), v(10_000, 0));
    assert!(held.is_empty());
}

#[test]
fn out_of_bounds_is_left_right_or_below() {
    let goal = v(10_000, 0);
    let b = bounds();
    for (pos, out) in [
        (v(-700, 0), false),
        (v(-701, 0), true),
        (v(700, 0), false),
        (v(701, 0), true),
        (v(0, -600), false),
        (v(0, -601), true),
        // No upper bound: a ball flying high stays in play.
        (v(0, 100_000), false),
    ] {
        let obs = BallObservation { pos, asleep: false };
        let events = bridge_events(LevelState::InPlay, obs, false, b, goal);
        assert_eq!(events == vec![GameEvent::BallOutOfBounds], out, "at {:?}", pos);
    }
}
