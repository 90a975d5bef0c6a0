//! Verified core of a grid snake simulation.
//!
//! The library models the tick-driven body simulation: a head cell moving on
//! a bounded grid, a chain of body cells shifted behind it each tick,
//! collision detection against the walls and the pre-tick body, a growth
//! counter drained one segment per tick, and a direction buffer that rejects
//! direct reversals. Rendering, input polling and entity bookkeeping live
//! outside the library and drive it through plain values.

pub mod direction;
pub mod food;
pub mod grid;
pub mod state;
pub mod timer;

pub use direction::Direction;
pub use direction::KeySet;
pub use grid::ArenaConfig;
pub use grid::Cell;
pub use state::GameState;
pub use state::TickOutcome;
pub use timer::TickTimer;
