//! A discrete-time simulation of a snake game on a bounded grid.
//!
//! The simulation owns the grid dimensions, the snake body, the committed and
//! queued movement directions, the food cell, the score, and a liveness flag.
//! It advances one tick at a time through [`step`], takes directional input
//! through [`set_direction`], and starts a round through [`new_game`].

pub mod state;
pub mod update;

pub use state::Direction;
pub use state::GameState;
pub use state::GridPos;
pub use update::new_game;
pub use update::select_food;
pub use update::set_direction;
pub use update::step;
pub use update::StepResult;
