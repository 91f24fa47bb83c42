use vstd::prelude::*;

verus! {

/// One of the two players, or `Nobody` before the opening roll and for an unowned cube.
#[derive(Debug, Clone, Copy, PartialEq, Eq, Structural, Hash)]
pub enum Player {
    /// None of the two players, e.g. at the start of a game.
    Nobody,
    /// Player 0
    Player0,
    /// Player 1
    Player1,
}

impl Player {
    /// The opponent of a real player; `Nobody` stays `Nobody`.
    pub open spec fn opponent(self) -> Player {
        match self {
            Player::Nobody => Player::Nobody,
            Player::Player0 => Player::Player1,
            Player::Player1 => Player::Player0,
        }
    }

    /// The name shown for the player.
    pub open spec fn label(self) -> Seq<char> {
        match self {
            Player::Nobody => "Nobody"@,
            Player::Player0 => "Player 0"@,
            Player::Player1 => "Player 1"@,
        }
    }

    /// Returns the name shown for the player.
    pub fn name(&self) -> (r: &'static str)
        ensures
            r@ == self.label(),
    {
        match *self {
            Player::Nobody => "Nobody",
            Player::Player0 => "Player 0",
            Player::Player1 => "Player 1",
        }
    }

    /// Returns the other player, i.e. the player who is not the current player.
    pub fn other(&self) -> (r: Player)
        ensures
            r == self.opponent(),
    {
        match *self {
            Player::Nobody => Player::Nobody,
            Player::Player0 => Player::Player1,
            Player::Player1 => Player::Player0,
        }
    }
}

impl Default for Player {
    fn default() -> (r: Player)
        ensures
            r == Player::Nobody,
    {
        Player::Nobody
    }
}

} // verus!
