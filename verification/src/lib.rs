//! Core logic of a single-ball, physics-driven mini-golf game.
//!
//! The library owns everything that can be stated and proved as plain data
//! and arithmetic: the procedural level-geometry builder (prefix sums,
//! bounding-box centering, ear-clipping triangulation), the swing power
//! computation, the physics event bridge, the lives tracker, and the
//! cooperating state machines for application mode, course progress and the
//! per-hole lifecycle.  A host process (window, renderer, rigid-body solver)
//! calls [`game::Game::apply_transitions`] at each tick boundary and
//! [`game::Game::tick`] with the tick's observations, and carries out the
//! returned effects.
//!
//! All geometry is carried in *half-units*: twice the source pixel value, so
//! that bounding-box centres, the ball radius (7.5 px = 15 half-units) and
//! the goal pocket stay exact integers.

pub mod geom;
pub mod triangulate;
pub mod level_data;
pub mod states;
pub mod events;
pub mod swing;
pub mod lives;
pub mod bridge;
pub mod level;
pub mod game;
