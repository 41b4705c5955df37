use vstd::prelude::*;

verus! {

/// A player's mark. `X` is the first player, `O` the second; `X` always
/// takes the first turn of a game.
#[derive(Copy, Clone, PartialEq, Eq, Structural, Debug)]
pub enum Player {
    X,
    O,
}

impl Player {
    /// The opposing mark, as a specification-level function.
    pub open spec fn spec_other(self) -> Player {
        match self {
            Player::X => Player::O,
            Player::O => Player::X,
        }
    }

    /// The opposing mark: `O` for `X` and `X` for `O`.
    pub fn other(self) -> (r: Player)
        ensures
            r == self.spec_other(),
    {
        match self {
            Player::X => Player::O,
            Player::O => Player::X,
        }
    }
}

} // verus!
