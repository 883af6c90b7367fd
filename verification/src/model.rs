use vstd::prelude::*;

use crate::types::{delta_x, delta_y, Cell, Direction, GameState, QueueDiscipline};

verus! {

/// Mathematical model of the player: unbounded coordinates plus liveness.
#[verifier::ext_equal]
pub ghost struct PlayerModel {
    pub x: int,
    pub y: int,
    pub alive: bool,
}

impl PlayerModel {
    /// The player after one unclamped application of a direction's delta.
    pub open spec fn moved(self, d: Direction) -> PlayerModel {
        PlayerModel { x: self.x + delta_x(d), y: self.y + delta_y(d), ..self }
    }
}

/// Mathematical model of a whole universe: the grid as a row-major sequence
/// of cells, the player, the pending moves in queue order (oldest first), the
/// last observed state, and the queue discipline.
#[verifier::ext_equal]
pub ghost struct UniverseModel {
    pub width: int,
    pub height: int,
    pub cells: Seq<Cell>,
    pub player: PlayerModel,
    pub moves: Seq<Direction>,
    pub state: GameState,
    pub discipline: QueueDiscipline,
}

impl UniverseModel {
    /// Well-formedness: positive dimensions, a full row-major grid whose every
    /// index fits the machine's grid indexing, and a player inside the grid.
    pub open spec fn wf(self) -> bool {
        &&& 0 < self.width
        &&& 0 < self.height
        &&& self.width * self.height <= u32::MAX
        &&& self.cells.len() == self.width * self.height
        &&& 0 <= self.player.x < self.width
        &&& 0 <= self.player.y < self.height
    }

    /// Row-major linear index of the position `(x, y)`.
    pub open spec fn index_of(self, x: int, y: int) -> int {
        y * self.width + x
    }

    /// The cell under the position `(x, y)`.
    pub open spec fn cell_at(self, x: int, y: int) -> Cell {
        self.cells[self.index_of(x, y)]
    }

    /// Whether applying `d` to the player keeps it inside the grid. A move
    /// that fails this is rejected as a no-op: coordinates never wrap.
    pub open spec fn move_stays_inside(self, d: Direction) -> bool {
        &&& 0 <= self.player.x + delta_x(d) < self.width
        &&& 0 <= self.player.y + delta_y(d) < self.height
    }

    /// One in-bounds step of a live, unpaused universe: the player moves by
    /// the delta, lava kills on entry while the state stays `Playing` for
    /// this tick, and a goal finishes the game on the same tick.
    pub open spec fn stepped(self, d: Direction) -> UniverseModel {
        let x2 = self.player.x + delta_x(d);
        let y2 = self.player.y + delta_y(d);
        let entered = self.cell_at(x2, y2);
        UniverseModel {
            player: PlayerModel { x: x2, y: y2, alive: entered != Cell::Lava },
            state: if entered == Cell::Goal {
                GameState::Finished
            } else {
                GameState::Playing
            },
            ..self
        }
    }

    /// The universe after one tick driven by an explicitly supplied
    /// direction. A dead player finishes the game before anything else is
    /// consulted; a paused universe ignores the tick entirely; an out-of-grid
    /// move is rejected as a no-op that still marks the state `Playing`.
    pub open spec fn ticked(self, d: Direction) -> UniverseModel {
        if !self.player.alive {
            UniverseModel { state: GameState::Finished, ..self }
        } else if self.state == GameState::Paused {
            self
        } else if !self.move_stays_inside(d) {
            UniverseModel { state: GameState::Playing, ..self }
        } else {
            self.stepped(d)
        }
    }

    /// The direction the queue hands out next: the oldest entry under FIFO,
    /// the newest under LIFO.
    pub open spec fn queue_front(self) -> Direction {
        match self.discipline {
            QueueDiscipline::Fifo => self.moves[0],
            QueueDiscipline::Lifo => self.moves[self.moves.len() - 1],
        }
    }

    /// The universe with the next queued direction removed.
    pub open spec fn dequeued(self) -> UniverseModel {
        UniverseModel {
            moves: match self.discipline {
                QueueDiscipline::Fifo => self.moves.drop_first(),
                QueueDiscipline::Lifo => self.moves.drop_last(),
            },
            ..self
        }
    }

    /// The universe after one tick driven by the queue. Dead and paused
    /// universes behave exactly as under [`Self::ticked`], and in particular
    /// leave the queue untouched; an exhausted queue is itself a terminal
    /// condition that finishes the game without moving the player.
    pub open spec fn ticked_queued(self) -> UniverseModel {
        if !self.player.alive {
            UniverseModel { state: GameState::Finished, ..self }
        } else if self.state == GameState::Paused {
            self
        } else if self.moves.len() == 0 {
            UniverseModel { state: GameState::Finished, ..self }
        } else {
            self.dequeued().ticked(self.queue_front())
        }
    }
}

} // verus!
