use vstd::prelude::*;

verus! {

/// Holds all possible errors that can occur during a Backgammon game.
#[derive(Debug, Clone, Copy, PartialEq, Eq, Structural)]
pub enum Error {
    /// Game has already started
    GameStarted,
    /// Game has already ended
    GameEnded,
    /// Opponent offered doubling cube. Need to react on this event first.
    CubeReceived,
    /// Doubling not permitted
    DoublingNotPermitted,
    /// Invalid cube value
    CubeValueInvalid,
    /// Invalid player
    PlayerInvalid,
    /// Field blocked
    FieldBlocked,
    /// Invalid field
    FieldInvalid,
    /// Not your turn
    NotYourTurn,
    /// Invalid move
    MoveInvalid,
    /// Invalid move, checker on bar
    MoveInvalidBar,
    /// Move first
    MoveFirst,
    /// Roll first
    RollFirst,
    /// Dice Invalid
    DiceInvalid,
}

impl Error {
    /// The human-readable text of each error.
    pub open spec fn text(self) -> Seq<char> {
        match self {
            Error::GameStarted => "Game has already started"@,
            Error::GameEnded => "Game has already ended"@,
            Error::CubeReceived =>
                "Opponent offered dice. Need to first accept or decline the doubling dice."@,
            Error::DoublingNotPermitted => "Doubling not permitted"@,
            Error::CubeValueInvalid => "Invalid cube value"@,
            Error::PlayerInvalid => "Invalid player"@,
            Error::FieldBlocked => "Field blocked"@,
            Error::FieldInvalid => "Invalid field"@,
            Error::NotYourTurn => "Not your turn"@,
            Error::MoveInvalid => "Invalid move"@,
            Error::MoveInvalidBar => "Invalid move, checker on bar"@,
            Error::MoveFirst => "Move first"@,
            Error::RollFirst => "Roll first"@,
            Error::DiceInvalid => "Invalid dice"@,
        }
    }

    /// Describes the error in words, for logs and user interfaces.
    pub fn message(&self) -> (r: &'static str)
        ensures
            r@ == self.text(),
    {
        match self {
            Error::GameStarted => "Game has already started",
            Error::GameEnded => "Game has already ended",
            Error::CubeReceived =>
                "Opponent offered dice. Need to first accept or decline the doubling dice.",
            Error::DoublingNotPermitted => "Doubling not permitted",
            Error::CubeValueInvalid => "Invalid cube value",
            Error::PlayerInvalid => "Invalid player",
            Error::FieldBlocked => "Field blocked",
            Error::FieldInvalid => "Invalid field",
            Error::NotYourTurn => "Not your turn",
            Error::MoveInvalid => "Invalid move",
            Error::MoveInvalidBar => "Invalid move, checker on bar",
            Error::MoveFirst => "Move first",
            Error::RollFirst => "Roll first",
            Error::DiceInvalid => "Invalid dice",
        }
    }
}

} // verus!
