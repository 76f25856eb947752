//! Domain events and host effects.
//!
//! `GameEvent` values are produced once per tick — by the physics event
//! bridge and by the swing controller — and drained by the state machines
//! in priority order.  `Effect` values are the library's only way of
//! acting on the world: the host performs each one after the tick.

use vstd::prelude::*;

use crate::geom::Vec2i;

verus! {

/// A discrete domain event, derived from physics observations or input.
#[derive(Clone, Copy, Debug, PartialEq, Eq, Structural)]
pub enum GameEvent {
    /// The swing controller released an impulse onto the ball; the payload
    /// is the resulting speed in pixels per second.
    BallHit { speed: u32 },
    /// The ball's angular and linear speed settled under the engine's
    /// sleep threshold while the hole was in play.
    BallStopped,
    /// The ball left the play bounds (left, right or below) while the hole
    /// was in play.
    BallOutOfBounds,
    /// The ball's collider overlapped the goal sensor region while the
    /// hole was in play.
    BallEnteredGoal,
}

/// An action the host must perform after the tick that returned it.
/// Each effect is emitted exactly once per state transition or event that
/// calls for it.
#[derive(Clone, Copy, Debug, PartialEq, Eq, Structural)]
pub enum Effect {
    /// Move the ball to `tee`, zero its velocities, clear its rotation and
    /// restore its normal bounciness.
    ResetBall { tee: Vec2i },
    /// Set the ball's velocity to the unit vector of `dir` scaled by
    /// `power` times the launch factor.
    LaunchBall { dir: Vec2i, power: u8 },
    /// Copy the pre-staged geometry of hole `index` into the live hole:
    /// mesh, collision polyline, tee and goal anchors.
    ActivateLevel { index: usize },
    /// Lower the ball's restitution so it cannot bounce back out of the
    /// goal pocket.
    ReduceBallBounciness,
    /// Show the course-over overlay; `won` selects the success or failure
    /// text.
    ShowCourseOverlay { won: bool },
    /// Freeze the fixed-rate physics clock.
    PausePhysics,
    /// Resume the fixed-rate physics clock.
    UnpausePhysics,
}

/// The headline the course-over overlay shows.
pub fn course_over_text(won: bool) -> (r: &'static str)
    ensures
        won ==> r@ == "Le Epic Win!"@,
        !won ==> r@ == "GAME OVER"@,
{
    if won {
        "Le Epic Win!"
    } else {
        "GAME OVER"
    }
}

} // verus!
