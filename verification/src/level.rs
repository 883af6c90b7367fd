use vstd::prelude::*;

use crate::types::{Cell, Config};

verus! {

/// The cell a generator must place at linear index `i`, given whether the
/// hazard draw for that index came up lava. The goal (when configured) sits
/// at the midpoint of the top row; lava may appear only on even indices that
/// are neither the goal nor the player's start cell.
pub open spec fn level_cell(config: Config, i: int, lava_drawn: bool) -> Cell {
    if config.has_goal && i == config.goal_index() {
        Cell::Goal
    } else if i != config.start_index() && i % 2 == 0 && lava_drawn {
        Cell::Lava
    } else {
        Cell::Floor
    }
}

/// What holds of every grid the generator can produce for `config`,
/// whichever values the randomness source returned. At the extreme hazard
/// probabilities the grid is fully determined.
pub open spec fn level_fits(config: Config, cells: Seq<Cell>) -> bool {
    &&& cells.len() == config.width * config.height
    &&& forall|i: int|
        0 <= i < cells.len() ==> ((#[trigger] cells[i]) == level_cell(config, i, true)
            || cells[i] == level_cell(config, i, false))
    &&& (config.hazard_num == 0 ==> forall|i: int|
        0 <= i < cells.len() ==> (#[trigger] cells[i]) == level_cell(config, i, false))
    &&& (config.hazard_num >= config.hazard_den ==> forall|i: int|
        0 <= i < cells.len() ==> (#[trigger] cells[i]) == level_cell(config, i, true))
}

/// Relies on `rand::thread_rng` and `rand::Rng::gen_range`: for a positive
/// `bound` the range `0..bound` is non-empty, so the call cannot panic and
/// hands back a value drawn uniformly from `[0, bound)`. Nothing is promised
/// about which value comes back.
#[verifier::external_body]
fn draw_below(bound: u32) -> (r: u32)
    requires
        bound > 0,
    ensures
        r < bound,
{
    rand::Rng::gen_range(&mut rand::thread_rng(), 0..bound)
}

/// `count` independent draws from `[0, bound)`: the injectable randomness
/// a level generator consumes, one draw per cell.
pub fn random_draws(count: u32, bound: u32) -> (draws: Vec<u32>)
    requires
        bound > 0,
    ensures
        draws@.len() == count,
        forall|i: int| 0 <= i < count ==> (#[trigger] draws@[i]) < bound,
{
    let mut draws: Vec<u32> = Vec::new();
    let mut i: u32 = 0;
    while i < count
        invariant
            i <= count,
            bound > 0,
            draws@.len() == i,
            forall|j: int| 0 <= j < i ==> (#[trigger] draws@[j]) < bound,
        decreases count - i,
    {
        draws.push(draw_below(bound));
        i = i + 1;
    }
    draws
}

/// Builds the row-major grid for `config` from one hazard draw per cell:
/// index `i` becomes lava exactly when its draw falls below `hazard_num`.
/// Deterministic in `draws`, so a fixed sequence gives a reproducible level.
pub fn generate_cells(config: &Config, draws: &Vec<u32>) -> (cells: Vec<Cell>)
    requires
        config.valid(),
        draws@.len() == config.width * config.height,
        forall|i: int| 0 <= i < draws@.len() ==> (#[trigger] draws@[i]) < config.hazard_den,
    ensures
        forall|i: int|
            0 <= i < cells@.len() ==> (#[trigger] cells@[i]) == level_cell(
                *config,
                i,
                draws@[i] < config.hazard_num,
            ),
        level_fits(*config, cells@),
{
    let width: usize = config.width as usize;
    let height: usize = config.height as usize;
    proof {
        assert((height - 1) * width + width / 2 < width * height) by (nonlinear_arith)
            requires
                width >= 1,
                height >= 1,
        ;
        assert(width * height <= u32::MAX) by (nonlinear_arith)
            requires
                (config.width as int) * (config.height as int) <= u32::MAX,
                width == config.width as int,
                height == config.height as int,
        ;
    }
    let total: usize = width * height;
    let goal_idx: usize = width / 2;
    let start_idx: usize = (height - 1) * width + width / 2;
    let mut cells: Vec<Cell> = Vec::new();
    let mut i: usize = 0;
    while i < total
        invariant
            config.valid(),
            total == config.width * config.height,
            goal_idx == config.goal_index(),
            start_idx == config.start_index(),
            draws@.len() == total,
            forall|k: int| 0 <= k < draws@.len() ==> (#[trigger] draws@[k]) < config.hazard_den,
            i <= total,
            cells@.len() == i,
            forall|j: int|
                0 <= j < i ==> (#[trigger] cells@[j]) == level_cell(
                    *config,
                    j,
                    draws@[j] < config.hazard_num,
                ),
        decreases total - i,
    {
        let kind = if config.has_goal && i == goal_idx {
            Cell::Goal
        } else if i != start_idx && i % 2 == 0 && draws[i] < config.hazard_num {
            Cell::Lava
        } else {
            Cell::Floor
        };
        cells.push(kind);
        i = i + 1;
    }
    cells
}

} // verus!
