//! The physics event bridge: per-tick engine observations become discrete
//! domain events.
//!
//! The bridge never invents state.  From one observation of the ball —
//! position and the engine's sleep flag — it derives up to three events,
//! all gated on the hole being in play, in a fixed order: goal entry
//! first, then out-of-bounds, then ball-stopped.  Goal detection coming
//! first is what resolves a tick on which the ball both crosses the goal
//! sensor and settles: the hole is won, not failed.

use vstd::prelude::*;

use crate::events::GameEvent;
use crate::geom::Vec2i;
use crate::geom::in_box;
use crate::level_data::BALL_RADIUS_H;
use crate::level_data::GOAL_HALF;
use crate::level_data::MAX_ANCHOR;
use crate::states::LevelState;

verus! {

/// The rectangle outside which the ball counts as lost: left, right or
/// below.  There is no upper bound — a ball flying high stays in play.
#[derive(Clone, Copy, Debug, PartialEq, Eq, Structural)]
pub struct LevelBounds {
    pub min: Vec2i,
    pub max: Vec2i,
}

/// One tick's observation of the ball, as reported by the physics engine.
#[derive(Clone, Copy, Debug, PartialEq, Eq, Structural)]
pub struct BallObservation {
    /// Ball centre position, in half-units.
    pub pos: Vec2i,
    /// The engine's sleep flag: motion settled under its thresholds.
    pub asleep: bool,
}

/// Magnitude of an integer.
pub open spec fn iabs(a: int) -> int {
    if a < 0 {
        -a
    } else {
        a
    }
}

/// The ball has left the play bounds: outside the rectangle to the left,
/// to the right, or below.  There is no upper bound.
pub open spec fn out_of_bounds(pos: Vec2i, bounds: LevelBounds) -> bool {
    pos.x < bounds.min.x || pos.x > bounds.max.x || pos.y < bounds.min.y
}

/// The ball's circular collider overlaps the square goal sensor whose
/// bottom-left corner is `goal_bottom_left`: centre distances within the
/// expanded box, and past a corner only within the ball's radius of it.
pub open spec fn ball_in_goal(pos: Vec2i, goal_bottom_left: Vec2i) -> bool {
    let dx = iabs(pos.x - (goal_bottom_left.x + GOAL_HALF));
    let dy = iabs(pos.y - (goal_bottom_left.y + GOAL_HALF));
    &&& dx <= GOAL_HALF + BALL_RADIUS_H
    &&& dy <= GOAL_HALF + BALL_RADIUS_H
    &&& (dx <= GOAL_HALF || dy <= GOAL_HALF || (dx - GOAL_HALF) * (dx - GOAL_HALF) + (dy
        - GOAL_HALF) * (dy - GOAL_HALF) <= BALL_RADIUS_H * BALL_RADIUS_H)
}

/// The events one observation yields: nothing unless the hole is in play;
/// otherwise goal entry, then out-of-bounds, then a stop — the stop only
/// on the tick the sleep flag first rises.
pub open spec fn bridge_spec(
    level_state: LevelState,
    obs: BallObservation,
    prev_asleep: bool,
    bounds: LevelBounds,
    goal_bottom_left: Vec2i,
) -> Seq<GameEvent> {
    if level_state != LevelState::InPlay {
        Seq::empty()
    } else {
        (if ball_in_goal(obs.pos, goal_bottom_left) {
            seq![GameEvent::BallEnteredGoal]
        } else {
            Seq::empty()
        }) + (if out_of_bounds(obs.pos, bounds) {
            seq![GameEvent::BallOutOfBounds]
        } else {
            Seq::empty()
        }) + (if obs.asleep && !prev_asleep {
            seq![GameEvent::BallStopped]
        } else {
            Seq::empty()
        })
    }
}

/// Whether the ball's collider overlaps the goal sensor, computed exactly.
pub fn ball_in_goal_check(pos: Vec2i, goal_bottom_left: Vec2i) -> (r: bool)
    requires
        in_box(pos, MAX_ANCHOR),
        in_box(goal_bottom_left, MAX_ANCHOR),
    ensures
        r == ball_in_goal(pos, goal_bottom_left),
{
    let cx: i64 = goal_bottom_left.x + GOAL_HALF;
    let cy: i64 = goal_bottom_left.y + GOAL_HALF;
    let dxr: i64 = if pos.x >= cx {
        pos.x - cx
    } else {
        cx - pos.x
    };
    let dyr: i64 = if pos.y >= cy {
        pos.y - cy
    } else {
        cy - pos.y
    };
    if dxr > GOAL_HALF + BALL_RADIUS_H || dyr > GOAL_HALF + BALL_RADIUS_H {
        return false;
    }
    if dxr <= GOAL_HALF || dyr <= GOAL_HALF {
        return true;
    }
    let ex: i64 = dxr - GOAL_HALF;
    let ey: i64 = dyr - GOAL_HALF;
    proof {
        assert(0 <= ex * ex <= 225 && 0 <= ey * ey <= 225) by (nonlinear_arith)
            requires
                0 <= ex <= 15,
                0 <= ey <= 15,
        ;
    }
    ex * ex + ey * ey <= BALL_RADIUS_H * BALL_RADIUS_H
}

/// Translates one physics observation into the tick's domain events, in
/// the guaranteed order: goal entry, out-of-bounds, stop.
pub fn bridge_events(
    level_state: LevelState,
    obs: BallObservation,
    prev_asleep: bool,
    bounds: LevelBounds,
    goal_bottom_left: Vec2i,
) -> (events: Vec<GameEvent>)
    requires
        in_box(obs.pos, MAX_ANCHOR),
        in_box(goal_bottom_left, MAX_ANCHOR),
    ensures
        events@ == bridge_spec(level_state, obs, prev_asleep, bounds, goal_bottom_left),
{
    let mut events: Vec<GameEvent> = Vec::new();
    if level_state != LevelState::InPlay {
        proof {
            assert(events@ =~= bridge_spec(level_state, obs, prev_asleep, bounds, goal_bottom_left));
        }
        return events;
    }
    if ball_in_goal_check(obs.pos, goal_bottom_left) {
        events.push(GameEvent::BallEnteredGoal);
    }
    if obs.pos.x < bounds.min.x || obs.pos.x > bounds.max.x || obs.pos.y < bounds.min.y {
        events.push(GameEvent::BallOutOfBounds);
    }
    if obs.asleep && !prev_asleep {
        events.push(GameEvent::BallStopped);
    }
    proof {
        assert(events@ =~= bridge_spec(level_state, obs, prev_asleep, bounds, goal_bottom_left));
    }
    events
}

} // verus!
