use vstd::prelude::*;

use crate::model::{PlayerModel, UniverseModel};
use crate::types::{delta_x, delta_y, Cell, Direction, GameState};

verus! {

/// A tick of a well-formed universe leaves a well-formed universe, whatever
/// the direction and whether it is supplied explicitly or by the queue.
pub proof fn lemma_tick_preserves_wf(m: UniverseModel, d: Direction)
    requires
        m.wf(),
    ensures
        m.ticked(d).wf(),
        m.ticked_queued().wf(),
{
}

/// Applying any direction to a live, unpaused player whose move stays inside
/// the grid and lands on a floor cell changes the player's position by
/// exactly the direction's delta and nothing else besides the state, which
/// becomes `Playing`. Repeated ticks under these premises therefore only
/// ever translate the player.
pub proof fn lemma_floor_step_moves_by_delta(m: UniverseModel, d: Direction)
    requires
        m.player.alive,
        m.state != GameState::Paused,
        m.move_stays_inside(d),
        m.cell_at(m.player.x + delta_x(d), m.player.y + delta_y(d)) == Cell::Floor,
    ensures
        m.ticked(d) == (UniverseModel {
            player: (PlayerModel {
                x: m.player.x + delta_x(d),
                y: m.player.y + delta_y(d),
                alive: true,
            }),
            state: GameState::Playing,
            ..m
        }),
{
}

/// A dead player always yields `Finished` on the next tick, regardless of
/// prior queued moves or pause state, and everything else — the queued moves
/// in particular — is left untouched.
pub proof fn lemma_dead_player_ticks_to_finished(m: UniverseModel, d: Direction)
    requires
        !m.player.alive,
    ensures
        m.ticked(d) == (UniverseModel { state: GameState::Finished, ..m }),
        m.ticked_queued() == (UniverseModel { state: GameState::Finished, ..m }),
{
}

/// Ticking while `Paused` changes nothing at all — not the player, not the
/// grid, not the move queue — and the state observed stays `Paused`.
pub proof fn lemma_paused_tick_is_noop(m: UniverseModel, d: Direction)
    requires
        m.player.alive,
        m.state == GameState::Paused,
    ensures
        m.ticked(d) == m,
        m.ticked_queued() == m,
{
}

/// A queue-driven tick on an exhausted queue yields `Finished` with the
/// player — its position in particular — and the grid unchanged: queue
/// exhaustion is itself a terminal condition, independent of hazards.
pub proof fn lemma_empty_queue_finishes(m: UniverseModel)
    requires
        m.player.alive,
        m.state != GameState::Paused,
        m.moves.len() == 0,
    ensures
        m.ticked_queued() == (UniverseModel { state: GameState::Finished, ..m }),
{
}

/// Stepping onto a lava cell kills the player, yet the tick performing the
/// step still reports `Playing`; only the following tick — by either driver,
/// whatever direction it carries — reports `Finished`, and that later tick
/// moves nothing. Death is thus observed one frame after it happens.
pub proof fn lemma_lava_step_two_phase_finish(m: UniverseModel, d: Direction, d2: Direction)
    requires
        m.player.alive,
        m.state != GameState::Paused,
        m.move_stays_inside(d),
        m.cell_at(m.player.x + delta_x(d), m.player.y + delta_y(d)) == Cell::Lava,
    ensures
        m.ticked(d).state == GameState::Playing,
        !m.ticked(d).player.alive,
        m.ticked(d).ticked(d2) == (UniverseModel { state: GameState::Finished, ..m.ticked(d) }),
        m.ticked(d).ticked_queued() == (UniverseModel {
            state: GameState::Finished,
            ..m.ticked(d)
        }),
{
}

/// Stepping onto a goal cell reports `Finished` on the very tick that makes
/// the step, with the player still alive — which distinguishes winning from
/// the delayed, liveness-losing lava termination.
pub proof fn lemma_goal_step_finishes_immediately(m: UniverseModel, d: Direction)
    requires
        m.player.alive,
        m.state != GameState::Paused,
        m.move_stays_inside(d),
        m.cell_at(m.player.x + delta_x(d), m.player.y + delta_y(d)) == Cell::Goal,
    ensures
        m.ticked(d).state == GameState::Finished,
        m.ticked(d).player.alive,
{
}

} // verus!
