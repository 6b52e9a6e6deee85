use vstd::prelude::*;

verus! {

/// One of the two sides of a game.
#[derive(Clone, Copy, PartialEq, Eq, Debug, Structural)]
pub enum Player {
    O,
    X,
}

impl Player {
    /// The other side.
    pub open spec fn other(self) -> Player {
        match self {
            Player::X => Player::O,
            Player::O => Player::X,
        }
    }

    /// Returns the player who is not `self`.
    pub fn opposite(&self) -> (p: Player)
        ensures
            p == self.other(),
            p != *self,
    {
        match self {
            Player::X => Player::O,
            Player::O => Player::X,
        }
    }
}

} // verus!
