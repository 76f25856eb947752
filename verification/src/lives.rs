//! The lives tracker: attempts remaining for the current hole.
//!
//! A swing is spent the instant the ball is struck, regardless of outcome.
//! The count can never go negative: a decrement is only performed while
//! attempts remain, and a hit at zero is left to the hole state machine to
//! resolve as a failure when the ball stops.

use vstd::prelude::*;

verus! {

/// The configured number of attempts per hole.
#[derive(Clone, Copy, Debug, PartialEq, Eq, Structural)]
pub struct Lives(pub u32);

/// Attempts remaining for the current hole.
#[derive(Clone, Copy, Debug, PartialEq, Eq, Structural)]
pub struct LivesLeft(pub u32);

impl LivesLeft {
    /// Reacts to one ball-hit event: exactly one attempt is spent if any
    /// remain, and none otherwise.  Returns whether an attempt was spent.
    pub fn react_to_ball_hit(&mut self) -> (spent: bool)
        ensures
            old(self).0 > 0 ==> final(self).0 == old(self).0 - 1 && spent,
            old(self).0 == 0 ==> final(self).0 == 0 && !spent,
    {
        if self.0 > 0 {
            self.0 = self.0 - 1;
            true
        } else {
            false
        }
    }

    /// Restores the full configured count, as happens whenever a hole
    /// (re)loads or the course restarts.
    pub fn reset(&mut self, lives: &Lives)
        ensures
            final(self).0 == lives.0,
    {
        self.0 = lives.0;
    }
}

} // verus!
