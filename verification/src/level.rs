//! The hole state machine's transition table.
//!
//! The table is total: it is a function over every (state, event) pair,
//! and every pair it does not act on leaves the state unchanged
//! (`lemma_level_transition_total`).  Out-of-bounds policy: leaving the
//! play bounds is a free reset — the ball returns to the tee and the hole
//! returns to `Playable` without consuming a life.

use vstd::prelude::*;

use crate::events::GameEvent;
use crate::states::LevelState;

verus! {

/// How long the success delay after winning a hole runs, in milliseconds.
pub const WIN_DELAY_MS: u32 = 2000;

/// Next hole state for one event.
///
/// - `Playable` + ball-hit: the ball is in motion, `InPlay`.
/// - `InPlay` + goal entry: `Won`.
/// - `InPlay` + out-of-bounds: back to `Playable` (free reset).
/// - `InPlay` + stopped: another attempt (`Playable`) while lives remain,
///   else `Failed`.
/// - every other pair: unchanged.
pub open spec fn level_transition(s: LevelState, e: GameEvent, lives_left: u32) -> LevelState {
    match (s, e) {
        (LevelState::Playable, GameEvent::BallHit { .. }) => LevelState::InPlay,
        (LevelState::InPlay, GameEvent::BallEnteredGoal) => LevelState::Won,
        (LevelState::InPlay, GameEvent::BallOutOfBounds) => LevelState::Playable,
        (LevelState::InPlay, GameEvent::BallStopped) => if lives_left > 0 {
            LevelState::Playable
        } else {
            LevelState::Failed
        },
        _ => s,
    }
}

/// The (state, event) pairs the table acts on.
pub open spec fn level_handles(s: LevelState, e: GameEvent) -> bool {
    ||| (s == LevelState::Playable && e matches GameEvent::BallHit { .. })
    ||| (s == LevelState::InPlay && (e == GameEvent::BallEnteredGoal || e
        == GameEvent::BallOutOfBounds || e == GameEvent::BallStopped))
}

/// The event resets the ball to the tee: exactly an out-of-bounds event
/// while the hole is in play.
pub open spec fn level_resets_ball(s: LevelState, e: GameEvent) -> bool {
    s == LevelState::InPlay && e == GameEvent::BallOutOfBounds
}

/// The transition table is total, and every (state, event) pair it does
/// not act on is a no-op: the state is left unchanged and the ball is not
/// moved.
pub proof fn lemma_level_transition_total()
    ensures
        forall|s: LevelState, e: GameEvent, lives: u32|
            !level_handles(s, e) ==> #[trigger] level_transition(s, e, lives) == s,
        forall|s: LevelState, e: GameEvent|
            !level_handles(s, e) ==> !#[trigger] level_resets_ball(s, e),
{
}

/// One step of the hole state machine, as executable code: the next state
/// and whether the ball must be reset to the tee.
pub fn level_step(s: LevelState, e: GameEvent, lives_left: u32) -> (r: (LevelState, bool))
    ensures
        r.0 == level_transition(s, e, lives_left),
        r.1 == level_resets_ball(s, e),
{
    match (s, e) {
        (LevelState::Playable, GameEvent::BallHit { .. }) => (LevelState::InPlay, false),
        (LevelState::InPlay, GameEvent::BallEnteredGoal) => (LevelState::Won, false),
        (LevelState::InPlay, GameEvent::BallOutOfBounds) => (LevelState::Playable, true),
        (LevelState::InPlay, GameEvent::BallStopped) => {
            if lives_left > 0 {
                (LevelState::Playable, false)
            } else {
                (LevelState::Failed, false)
            }
        },
        _ => (s, false),
    }
}

} // verus!
