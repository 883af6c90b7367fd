use std::collections::VecDeque;
use vstd::prelude::*;

use crate::level::{generate_cells, level_fits, random_draws};
use crate::model::{PlayerModel, UniverseModel};
use crate::player::Player;
use crate::types::{Cell, Config, ConfigError, Direction, GameState, QueueDiscipline};

verus! {

/// The character a cell renders as in the text dump: open floor, or one
/// blocked symbol shared by lava and goal.
pub open spec fn cell_char(c: Cell) -> char {
    if c == Cell::Floor {
        '.'
    } else {
        '#'
    }
}

/// The byte of [`cell_char`] in ASCII.
spec fn cell_byte(c: Cell) -> u8 {
    if c == Cell::Floor {
        46
    } else {
        35
    }
}

/// Position of column `c` of row `r` in the text dump, whose lines are
/// `width` symbols followed by a newline.
pub open spec fn dump_index(m: UniverseModel, r: int, c: int) -> int {
    r * (m.width + 1) + c
}

/// What the text dump of `m` spells: one line per row, each cell as
/// [`cell_char`], each line closed by a newline.
pub open spec fn dump_chars_ok(m: UniverseModel, s: Seq<char>) -> bool {
    &&& s.len() == m.height * (m.width + 1)
    &&& (forall|r: int, c: int|
        #![trigger dump_index(m, r, c)]
        0 <= r < m.height && 0 <= c < m.width ==> s[dump_index(m, r, c)] == cell_char(
            m.cells[m.index_of(c, r)],
        ))
    &&& (forall|r: int|
        #![trigger dump_index(m, r, m.width)]
        0 <= r < m.height ==> s[dump_index(m, r, m.width)] == '\n')
}

proof fn lemma_dump_index_lt(m: UniverseModel, r1: int, c1: int, r2: int, c2: int)
    requires
        0 <= r1 < r2,
        0 <= c1 <= m.width,
        0 <= c2,
    ensures
        dump_index(m, r1, c1) < dump_index(m, r2, c2),
{
    assert(r1 * (m.width + 1) + c1 < r2 * (m.width + 1) + c2) by (nonlinear_arith)
        requires
            0 <= r1 < r2,
            0 <= c1 <= m.width,
            0 <= c2,
    ;
}

proof fn lemma_dump_index_bound(m: UniverseModel, r: int, c: int)
    requires
        0 <= r < m.height,
        0 <= c <= m.width,
    ensures
        0 <= dump_index(m, r, c) < m.height * (m.width + 1),
{
    assert(r * (m.width + 1) + c < m.height * (m.width + 1)) by (nonlinear_arith)
        requires
            0 <= r < m.height,
            0 <= c <= m.width,
    ;
}

/// Relies on `String::from_utf8`: a buffer of ASCII bytes is valid UTF-8 and
/// decodes to exactly those characters, one per byte.
#[verifier::external_body]
fn ascii_string(bytes: Vec<u8>) -> (s: String)
    requires
        forall|i: int| 0 <= i < bytes@.len() ==> bytes@[i] < 128,
    ensures
        s@.len() == bytes@.len(),
        forall|i: int| 0 <= i < s@.len() ==> s@[i] == bytes@[i] as char,
{
    match String::from_utf8(bytes) {
        Ok(s) => s,
        Err(_) => String::new(),
    }
}

/// The complete simulation instance for one play session: grid, player,
/// pending moves and the last observed state. The single entry point mutated
/// by the external driver, once per frame.
pub struct Universe {
    width: u32,
    height: u32,
    cells: Vec<Cell>,
    player: Player,
    moves: VecDeque<Direction>,
    state: GameState,
    discipline: QueueDiscipline,
}

impl View for Universe {
    type V = UniverseModel;

    closed spec fn view(&self) -> UniverseModel {
        UniverseModel {
            width: self.width as int,
            height: self.height as int,
            cells: self.cells@,
            player: self.player@,
            moves: self.moves@,
            state: self.state,
            discipline: self.discipline,
        }
    }
}

impl Universe {
    /// Row-major linear index of `(column, row)`.
    fn get_index(&self, row: u32, column: u32) -> (idx: usize)
        requires
            self@.wf(),
            (row as int) < self@.height,
            (column as int) < self@.width,
        ensures
            idx == self@.index_of(column as int, row as int),
            idx < self@.cells.len(),
    {
        proof {
            assert((row as int) * (self.width as int) + (column as int) < (self.width as int)
                * (self.height as int)) by (nonlinear_arith)
                requires
                    (row as int) < (self.height as int),
                    0 <= (column as int) < (self.width as int),
                    0 <= row as int,
            ;
        }
        (row as usize) * (self.width as usize) + (column as usize)
    }

    /// Grid width in cells.
    pub fn width(&self) -> (w: u32)
        ensures
            w as int == self@.width,
    {
        self.width
    }

    /// Grid height in cells.
    pub fn height(&self) -> (h: u32)
        ensures
            h as int == self@.height,
    {
        self.height
    }

    /// The last observed game state.
    pub fn state(&self) -> (s: GameState)
        ensures
            s == self@.state,
    {
        self.state
    }

    /// Read-only view of the grid's cells, row-major, for rendering. The
    /// buffer stays owned by the universe and is never mutated after
    /// construction.
    pub fn cells(&self) -> (c: &Vec<Cell>)
        ensures
            c@ == self@.cells,
    {
        &self.cells
    }

    /// Player column.
    pub fn player_x(&self) -> (x: u32)
        ensures
            x as int == self@.player.x,
    {
        self.player.x
    }

    /// Player row.
    pub fn player_y(&self) -> (y: u32)
        ensures
            y as int == self@.player.y,
    {
        self.player.y
    }

    /// Linear index of the cell the player occupies.
    pub fn player_index(&self) -> (i: u32)
        requires
            self@.wf(),
        ensures
            i as int == self@.index_of(self@.player.x, self@.player.y),
    {
        let idx = self.get_index(self.player.y, self.player.x);
        idx as u32
    }

    /// Whether the player is alive.
    pub fn is_player_alive(&self) -> (b: bool)
        ensures
            b == self@.player.alive,
    {
        self.player.alive
    }

    /// Whether the player currently occupies the goal cell.
    pub fn is_player_on_goal(&self) -> (b: bool)
        requires
            self@.wf(),
        ensures
            b == (self@.cell_at(self@.player.x, self@.player.y) == Cell::Goal),
    {
        let idx = self.get_index(self.player.y, self.player.x);
        self.cells[idx] == Cell::Goal
    }

    /// How many moves are pending in the queue.
    pub fn pending_moves(&self) -> (n: usize)
        ensures
            n == self@.moves.len(),
    {
        self.moves.len()
    }

    /// Appends a direction to the move queue; nothing else changes.
    pub fn queue_move(&mut self, direction: Direction)
        ensures
            final(self)@ == (UniverseModel {
                moves: old(self)@.moves.push(direction),
                ..old(self)@
            }),
    {
        self.moves.push_back(direction)
    }

    /// Sets the state to `Playing`; never touches player, grid or queue.
    /// Callable at any time, also while `Finished`: a dead player is forced
    /// back to `Finished` by the very next tick.
    pub fn play(&mut self)
        ensures
            final(self)@ == (UniverseModel { state: GameState::Playing, ..old(self)@ }),
    {
        self.state = GameState::Playing;
    }

    /// Sets the state to `Paused`; never touches player, grid or queue.
    pub fn pause(&mut self)
        ensures
            final(self)@ == (UniverseModel { state: GameState::Paused, ..old(self)@ }),
    {
        self.state = GameState::Paused;
    }

    /// Removes and returns the next direction to execute, per discipline.
    fn next_move(&mut self) -> (d: Option<Direction>)
        ensures
            old(self)@.moves.len() == 0 ==> d is None && final(self)@ == old(self)@,
            old(self)@.moves.len() > 0 ==> {
                &&& d == Some(old(self)@.queue_front())
                &&& final(self)@ == old(self)@.dequeued()
            },
    {
        let d = match self.discipline {
            QueueDiscipline::Fifo => self.moves.pop_front(),
            QueueDiscipline::Lifo => self.moves.pop_back(),
        };
        proof {
            if old(self)@.moves.len() > 0 {
                assert(self@.moves =~= old(self)@.dequeued().moves);
                assert(self@ =~= old(self)@.dequeued());
            }
        }
        d
    }

    /// One simulation step driven by an explicitly supplied direction, as
    /// modelled by [`UniverseModel::ticked`]: a dead player finishes the game
    /// before anything else is consulted; a paused universe ignores the tick;
    /// an out-of-grid move is rejected as a no-op that still reports
    /// `Playing`; otherwise the player moves one cell, lava kills on entry
    /// while this tick still reports `Playing`, and a goal finishes the game
    /// on the same tick.
    pub fn tick(&mut self, direction: Direction) -> (r: GameState)
        requires
            old(self)@.wf(),
        ensures
            final(self)@ == old(self)@.ticked(direction),
            final(self)@.wf(),
            r == final(self)@.state,
    {
        if !self.player.alive {
            self.state = GameState::Finished;
            return self.state;
        }
        if self.state == GameState::Paused {
            return self.state;
        }
        self.state = GameState::Playing;
        let stays_inside = match direction {
            Direction::Up => self.player.y > 0,
            Direction::Right => self.player.x + 1 < self.width,
            Direction::Down => self.player.y + 1 < self.height,
            Direction::Left => self.player.x > 0,
        };
        if !stays_inside {
            return self.state;
        }
        self.player.move_player(direction);
        let idx = self.get_index(self.player.y, self.player.x);
        match self.cells[idx] {
            Cell::Floor => (),
            Cell::Lava => {
                self.player.alive = false;
            },
            Cell::Goal => {
                self.state = GameState::Finished;
            },
        }
        self.state
    }

    /// One simulation step driven by the queue, as modelled by
    /// [`UniverseModel::ticked_queued`]: dead and paused universes behave as
    /// under [`Self::tick`] and leave the queue untouched; an exhausted queue
    /// finishes the game without moving the player; otherwise the next queued
    /// direction is consumed and applied.
    pub fn tick_queued(&mut self) -> (r: GameState)
        requires
            old(self)@.wf(),
        ensures
            final(self)@ == old(self)@.ticked_queued(),
            final(self)@.wf(),
            r == final(self)@.state,
    {
        if !self.player.alive {
            self.state = GameState::Finished;
            return self.state;
        }
        if self.state == GameState::Paused {
            return self.state;
        }
        match self.next_move() {
            None => {
                self.state = GameState::Finished;
                self.state
            },
            Some(direction) => self.tick(direction),
        }
    }

    /// A universe for `config`, its hazard draws taken from the thread's
    /// randomness source. Rejected exactly when the configuration is not
    /// [`Config::valid`]. The player starts live at the midpoint of the
    /// bottom row, the queue empty, the state `Initial`, and the grid laid
    /// out as [`level_fits`] describes.
    pub fn new_with_config(config: Config) -> (r: Result<Universe, ConfigError>)
        ensures
            r is Ok <==> config.valid(),
            r matches Ok(u) ==> {
                &&& u@.wf()
                &&& u@.width == config.width
                &&& u@.height == config.height
                &&& u@.state == GameState::Initial
                &&& u@.discipline == config.discipline
                &&& u@.moves.len() == 0
                &&& u@.player == (PlayerModel {
                    x: config.start_x(),
                    y: config.start_y(),
                    alive: true,
                })
                &&& level_fits(config, u@.cells)
            },
            r matches Err(e) ==> e == ConfigError::InvalidConfiguration,
    {
        if config.width == 0 || config.height == 0 || config.hazard_den == 0
            || config.hazard_num > config.hazard_den {
            return Err(ConfigError::InvalidConfiguration);
        }
        proof {
            assert((config.width as int) * (config.height as int) < 0x1_0000_0000
                * 0x1_0000_0000) by (nonlinear_arith)
                requires
                    0 <= (config.width as int) < 0x1_0000_0000,
                    0 <= (config.height as int) < 0x1_0000_0000,
            ;
        }
        let area: u64 = (config.width as u64) * (config.height as u64);
        if area > (u32::MAX as u64) {
            return Err(ConfigError::InvalidConfiguration);
        }
        let draws = random_draws(area as u32, config.hazard_den);
        let cells = generate_cells(&config, &draws);
        let player = Player::new(config.width / 2, config.height - 1);
        let u = Universe {
            width: config.width,
            height: config.height,
            cells,
            player,
            moves: VecDeque::new(),
            state: GameState::Initial,
            discipline: config.discipline,
        };
        Ok(u)
    }

    /// The default universe: the five-by-five preset of
    /// [`Config::five_by_five`], with goal and probabilistic lava.
    pub fn new() -> (u: Universe)
        ensures
            u@.wf(),
            u@.width == 5,
            u@.height == 5,
            u@.state == GameState::Initial,
            u@.discipline == QueueDiscipline::Fifo,
            u@.moves.len() == 0,
            u@.player == (PlayerModel { x: 2, y: 4, alive: true }),
            level_fits(Config::preset_five(), u@.cells),
    {
        let config = Config::five_by_five();
        match Universe::new_with_config(config) {
            Ok(u) => u,
            Err(_) => vstd::pervasive::unreached(),
        }
    }

    /// The debug text dump: the grid as ASCII, one line per row, floor as an
    /// open symbol and lava or goal as a blocked one. A debug aid only.
    pub fn to_text(&self) -> (s: String)
        requires
            self@.wf(),
        ensures
            dump_chars_ok(self@, s@),
    {
        let width = self.width;
        let height = self.height;
        let mut bytes: Vec<u8> = Vec::new();
        let mut r: u32 = 0;
        while r < height
            invariant
                self@.wf(),
                width == self.width,
                height == self.height,
                r <= height,
                bytes@.len() == dump_index(self@, r as int, 0),
                forall|i: int| 0 <= i < bytes@.len() ==> (#[trigger] bytes@[i]) < 128,
                forall|rr: int, cc: int|
                    #![trigger dump_index(self@, rr, cc)]
                    0 <= rr < r && 0 <= cc < width ==> bytes@[dump_index(self@, rr, cc)]
                        == cell_byte(self@.cells[self@.index_of(cc, rr)]),
                forall|rr: int|
                    #![trigger dump_index(self@, rr, width as int)]
                    0 <= rr < r ==> bytes@[dump_index(self@, rr, width as int)] == 10,
            decreases height - r,
        {
            let mut c: u32 = 0;
            while c < width
                invariant
                    self@.wf(),
                    width == self.width,
                    height == self.height,
                    r < height,
                    c <= width,
                    bytes@.len() == dump_index(self@, r as int, c as int),
                    forall|i: int| 0 <= i < bytes@.len() ==> (#[trigger] bytes@[i]) < 128,
                    forall|rr: int, cc: int|
                        #![trigger dump_index(self@, rr, cc)]
                        0 <= rr < r && 0 <= cc < width ==> bytes@[dump_index(self@, rr, cc)]
                            == cell_byte(self@.cells[self@.index_of(cc, rr)]),
                    forall|rr: int|
                        #![trigger dump_index(self@, rr, width as int)]
                        0 <= rr < r ==> bytes@[dump_index(self@, rr, width as int)] == 10,
                    forall|cc: int|
                        #![trigger dump_index(self@, r as int, cc)]
                        0 <= cc < c ==> bytes@[dump_index(self@, r as int, cc)] == cell_byte(
                            self@.cells[self@.index_of(cc, r as int)],
                        ),
                decreases width - c,
            {
                proof {
                    assert forall|rr: int, cc: int|
                        #![trigger dump_index(self@, rr, cc)]
                        0 <= rr < r && 0 <= cc <= width implies dump_index(self@, rr, cc)
                        < dump_index(self@, r as int, c as int) by {
                        lemma_dump_index_lt(self@, rr, cc, r as int, c as int);
                    }
                }
                let idx = self.get_index(r, c);
                let sym: u8 = if self.cells[idx] == Cell::Floor {
                    46
                } else {
                    35
                };
                bytes.push(sym);
                c = c + 1;
            }
            proof {
                assert forall|rr: int, cc: int|
                    #![trigger dump_index(self@, rr, cc)]
                    0 <= rr < r && 0 <= cc <= width implies dump_index(self@, rr, cc) < dump_index(
                    self@,
                    r as int,
                    width as int,
                ) by {
                    lemma_dump_index_lt(self@, rr, cc, r as int, width as int);
                }
            }
            bytes.push(10);
            proof {
                assert((r as int + 1) * (width as int + 1) == (r as int) * (width as int + 1)
                    + width as int + 1) by (nonlinear_arith);
            }
            r = r + 1;
        }
        let s = ascii_string(bytes);
        proof {
            assert forall|rr: int, cc: int|
                #![trigger dump_index(self@, rr, cc)]
                0 <= rr < self@.height && 0 <= cc < self@.width implies s@[dump_index(
                self@,
                rr,
                cc,
            )] == cell_char(self@.cells[self@.index_of(cc, rr)]) by {
                lemma_dump_index_bound(self@, rr, cc);
            }
            assert forall|rr: int|
                #![trigger dump_index(self@, rr, self@.width)]
                0 <= rr < self@.height implies s@[dump_index(self@, rr, self@.width)] == '\n' by {
                lemma_dump_index_bound(self@, rr, self@.width);
            }
        }
        s
    }
}

} // verus!
