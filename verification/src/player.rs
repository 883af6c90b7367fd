use vstd::prelude::*;

use crate::model::PlayerModel;
use crate::types::{delta_x, delta_y, Direction};

verus! {

/// The single player: grid coordinates plus a liveness flag. Mutated only by
/// the universe's tick logic.
#[derive(Clone, Copy, Debug, PartialEq, Eq, Structural)]
pub struct Player {
    pub x: u32,
    pub y: u32,
    pub alive: bool,
}

impl View for Player {
    type V = PlayerModel;

    open spec fn view(&self) -> PlayerModel {
        PlayerModel { x: self.x as int, y: self.y as int, alive: self.alive }
    }
}

impl Player {
    /// A live player at `(x, y)`.
    pub fn new(x: u32, y: u32) -> (p: Player)
        ensures
            p@ == (PlayerModel { x: x as int, y: y as int, alive: true }),
    {
        Player { x, y, alive: true }
    }

    /// Applies the direction's delta unconditionally: this layer does not
    /// clamp to any grid and does not check liveness. The caller must rule
    /// out coordinate underflow and overflow beforehand.
    pub fn move_player(&mut self, direction: Direction)
        requires
            0 <= old(self)@.x + delta_x(direction) <= u32::MAX,
            0 <= old(self)@.y + delta_y(direction) <= u32::MAX,
        ensures
            final(self)@ == old(self)@.moved(direction),
    {
        match direction {
            Direction::Up => self.y = self.y - 1,
            Direction::Right => self.x = self.x + 1,
            Direction::Down => self.y = self.y + 1,
            Direction::Left => self.x = self.x - 1,
        }
    }
}

} // verus!
