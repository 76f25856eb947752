//! The closed state sets of the game's cooperating machines.
//!
//! Each machine holds a single current value; transitions are requested
//! during a tick and applied atomically at the tick boundary (see
//! `game::Game`).

use vstd::prelude::*;

verus! {

/// Top-level application mode.  Hole, course and swing logic run only
/// while the application is `InGame`.
#[derive(Clone, Copy, Debug, PartialEq, Eq, Structural)]
pub enum AppState {
    /// The main menu is shown, with the first hole visible behind it.
    Menu,
    /// The course is being played.
    InGame,
}

/// Progress through the sequence of holes that forms a course.
#[derive(Clone, Copy, Debug, PartialEq, Eq, Structural)]
pub enum CourseState {
    /// The current hole is live.
    Playing,
    /// The next hole's geometry is being activated.
    LoadNextLevel,
    /// Every hole was won; the course-over overlay is shown.
    Won,
    /// A hole was failed; the course-over overlay is shown.
    Failed,
}

/// Lifecycle of the single current hole.
#[derive(Clone, Copy, Debug, PartialEq, Eq, Structural)]
pub enum LevelState {
    /// Awaiting a swing; the ball rests at the tee or where it stopped.
    Playable,
    /// The ball is in motion after a hit.
    InPlay,
    /// The ball entered the goal; a short success delay runs.
    Won,
    /// The ball stopped with no lives left; terminal for the hole.
    Failed,
    /// The next hole's geometry is requested.
    LoadNext,
}

/// The wind-up gesture's two states.
#[derive(Clone, Copy, Debug, PartialEq, Eq, Structural)]
pub enum SwingState {
    /// No swing in progress.
    Idle,
    /// The pointer is held; power and direction are recomputed each tick.
    WindingUp,
}

/// Whether the fixed-rate physics clock advances.
#[derive(Clone, Copy, Debug, PartialEq, Eq, Structural)]
pub enum PhysicsState {
    Running,
    Paused,
}

} // verus!
