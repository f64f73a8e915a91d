//! Flappy Dragon: the rules of a small arcade game, where a dragon glides
//! through a run of gapped walls, stated and proved with Verus.
//!
//! The library holds the game's state machine and its physics. A driver
//! outside the library polls the keyboard, measures frame time, draws, and
//! hands each frame to [`State::tick`].

mod config;
mod dragon;
mod random;
mod state;
mod wall;

pub use config::{Config, CONFIG_MAX, VELOCITY_SCALE, WORLD_LIMIT};
pub use dragon::{rows_moved, Dragon};
pub use wall::{gap_half_size, half_size_at, lemma_half_size_non_increasing, Wall};
pub use state::{Action, GameMode, Key, State};
