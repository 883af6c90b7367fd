//! A deterministic grid-based movement simulation: a single player walks a
//! rectangular grid of floor, lava and goal cells, driven one tick at a time
//! by an external loop. The tick-driven state machine, the move queue and the
//! level generator are verified; randomness and host bindings stay outside.

mod laws;
mod level;
mod model;
mod player;
mod types;
mod universe;

pub use laws::{
    lemma_dead_player_ticks_to_finished, lemma_empty_queue_finishes,
    lemma_floor_step_moves_by_delta, lemma_goal_step_finishes_immediately,
    lemma_lava_step_two_phase_finish, lemma_paused_tick_is_noop, lemma_tick_preserves_wf,
};
pub use level::{generate_cells, level_cell, level_fits, random_draws};
pub use model::{PlayerModel, UniverseModel};
pub use player::Player;
pub use types::{delta_x, delta_y, Cell, Config, ConfigError, Direction, GameState, PlayerState,
    QueueDiscipline};
pub use universe::{cell_char, dump_chars_ok, dump_index, Universe};
