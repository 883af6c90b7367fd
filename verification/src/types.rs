use vstd::prelude::*;

verus! {

/// A compass direction the player can move in. In `(x, y)` deltas:
/// `Up = (0, -1)`, `Right = (+1, 0)`, `Down = (0, +1)`, `Left = (-1, 0)`.
#[derive(Clone, Copy, Debug, PartialEq, Eq, Structural)]
pub enum Direction {
    Up,
    Right,
    Down,
    Left,
}

/// Horizontal delta of a direction.
pub open spec fn delta_x(d: Direction) -> int {
    match d {
        Direction::Up => 0,
        Direction::Right => 1,
        Direction::Down => 0,
        Direction::Left => -1,
    }
}

/// Vertical delta of a direction (`Up` decreases `y`).
pub open spec fn delta_y(d: Direction) -> int {
    match d {
        Direction::Up => -1,
        Direction::Right => 0,
        Direction::Down => 1,
        Direction::Left => 0,
    }
}

/// The authoritative "last observed" state of the simulation.
#[derive(Clone, Copy, Debug, PartialEq, Eq, Structural)]
pub enum GameState {
    Initial,
    Playing,
    Finished,
    Paused,
}

/// Liveness of the player, as a named pair of states.
#[derive(Clone, Copy, Debug, PartialEq, Eq, Structural)]
pub enum PlayerState {
    Alive,
    Dead,
}

/// The terrain kind occupying one grid position. Immutable once a grid is
/// built. `Lava` kills the player on entry; `Goal` wins the game on entry.
#[derive(Clone, Copy, Debug, PartialEq, Eq, Structural)]
pub enum Cell {
    Floor,
    Lava,
    Goal,
}

/// Order in which queued moves are consumed: `Fifo` replays a pre-recorded
/// plan oldest-first; `Lifo` consumes the most recently queued direction
/// first, for a queue that is pushed and popped within the same frame.
#[derive(Clone, Copy, Debug, PartialEq, Eq, Structural)]
pub enum QueueDiscipline {
    Fifo,
    Lifo,
}

/// Construction-time parameters of a universe. The hazard probability is the
/// rational `hazard_num / hazard_den`, so a fixed choice such as one in five
/// needs no floating point.
#[derive(Clone, Copy, Debug, PartialEq, Eq, Structural)]
pub struct Config {
    pub width: u32,
    pub height: u32,
    pub discipline: QueueDiscipline,
    /// Whether the grid carries a goal cell at the midpoint of the top row.
    pub has_goal: bool,
    /// Numerator of the hazard probability.
    pub hazard_num: u32,
    /// Denominator of the hazard probability; must be positive.
    pub hazard_den: u32,
}

/// The one construction-time failure: a configuration with a zero dimension,
/// a malformed hazard probability, or a grid too large to index.
#[derive(Clone, Copy, Debug, PartialEq, Eq, Structural)]
pub enum ConfigError {
    InvalidConfiguration,
}

impl Config {
    /// A configuration is accepted when both dimensions are positive, the
    /// hazard probability lies in `[0, 1]`, and every linear cell index fits
    /// the machine's grid indexing.
    pub open spec fn valid(self) -> bool {
        &&& self.width > 0
        &&& self.height > 0
        &&& self.hazard_den > 0
        &&& self.hazard_num <= self.hazard_den
        &&& self.width * self.height <= u32::MAX
    }

    /// Linear index of the goal cell: the horizontal midpoint of the top row.
    pub open spec fn goal_index(self) -> int {
        self.width as int / 2
    }

    /// Player start column: the horizontal midpoint of the bottom row.
    pub open spec fn start_x(self) -> int {
        self.width as int / 2
    }

    /// Player start row: the bottom row.
    pub open spec fn start_y(self) -> int {
        self.height as int - 1
    }

    /// Linear index of the player's start cell.
    pub open spec fn start_index(self) -> int {
        self.start_y() * self.width + self.start_x()
    }

    /// The five-by-five preset as a value: a grid with a goal, a one-in-five
    /// lava chance on eligible cells, and a FIFO plan.
    pub open spec fn preset_five() -> Config {
        Config {
            width: 5,
            height: 5,
            discipline: QueueDiscipline::Fifo,
            has_goal: true,
            hazard_num: 1,
            hazard_den: 5,
        }
    }

    /// The all-floor nine-by-nine preset as a value: no goal, no lava, and a
    /// queue that hands back the most recently pushed direction first.
    pub open spec fn preset_nine() -> Config {
        Config {
            width: 9,
            height: 9,
            discipline: QueueDiscipline::Lifo,
            has_goal: false,
            hazard_num: 0,
            hazard_den: 1,
        }
    }

    /// The preset behind [`crate::Universe::new`]; see [`Config::preset_five`].
    pub fn five_by_five() -> (c: Config)
        ensures
            c == Config::preset_five(),
    {
        Config {
            width: 5,
            height: 5,
            discipline: QueueDiscipline::Fifo,
            has_goal: true,
            hazard_num: 1,
            hazard_den: 5,
        }
    }

    /// The all-floor preset; see [`Config::preset_nine`].
    pub fn nine_by_nine() -> (c: Config)
        ensures
            c == Config::preset_nine(),
    {
        Config {
            width: 9,
            height: 9,
            discipline: QueueDiscipline::Lifo,
            has_goal: false,
            hazard_num: 0,
            hazard_den: 1,
        }
    }
}

} // verus!
