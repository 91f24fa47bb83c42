use vstd::prelude::*;

verus! {

/// Holds all the rule settings. Set once when a game is built and only read afterwards.
#[derive(Debug, Clone, Copy, PartialEq, Eq, Structural, Hash)]
pub struct Rules {
    /// The amount of points to reach for declaring a winner, default is 7.
    pub points: u32,
    /// When offered the cube, allow to re-double but keep it, default is false.
    pub beaver: bool,
    /// If a player plays "beaver", the other may double again, letting the opponent keep the cube.
    /// Default is false
    pub raccoon: bool,
    /// If both players roll the same opening number, the cube is doubled, remaining in the middle
    /// of the board. Default is false.
    pub murphy: bool,
    /// How often to apply automatic doubling rule. 0 means always on. Default is 0.
    pub murphy_limit: u8,
    /// Gammon and Backgammon only count for double or triple values if the cube has already been
    /// offered. Default is false.
    pub jacoby: bool,
    /// When a player first reaches a score of points - 1, no doubling is allowed for the following
    /// game. Default is true.
    pub crawford: bool,
    /// Permits to double after Crawford game only if both players have rolled at least twice.
    /// Default is false.
    pub holland: bool,
}

/// The default rules: 7 points, the Crawford rule, nothing else.
pub open spec fn default_rules() -> Rules {
    Rules {
        points: 7,
        beaver: false,
        raccoon: false,
        murphy: false,
        murphy_limit: 0,
        jacoby: false,
        crawford: true,
        holland: false,
    }
}

impl Default for Rules {
    fn default() -> (r: Rules)
        ensures
            r == default_rules(),
    {
        Rules {
            points: 7,
            beaver: false,
            raccoon: false,
            murphy: false,
            murphy_limit: 0,
            jacoby: false,
            crawford: true,
            holland: false,
        }
    }
}

/// Allows to modify the rules; each setter leaves the other settings as they were.
pub trait SetRules: Sized {
    /// The rules that the value currently holds.
    spec fn rules_of(self) -> Rules;

    /// Set the amount of points to reach for declaring a winner
    fn with_points(self, points: u32) -> (r: Self)
        ensures
            r.rules_of() == (Rules { points, ..self.rules_of() }),
    ;

    /// When offered the cube, allow to re-double but keep it
    fn with_beaver(self) -> (r: Self)
        ensures
            r.rules_of() == (Rules { beaver: true, ..self.rules_of() }),
    ;

    /// If a player plays "beaver", the other may double again, letting the opponent keep the cube
    fn with_raccoon(self) -> (r: Self)
        ensures
            r.rules_of() == (Rules { raccoon: true, ..self.rules_of() }),
    ;

    /// If both players roll the same opening number, the cube is doubled, remaining in the middle
    /// of the board
    fn with_murphy(self, limit: u8) -> (r: Self)
        ensures
            r.rules_of() == (Rules { murphy: true, murphy_limit: limit, ..self.rules_of() }),
    ;

    /// Gammon and Backgammon only count for double or triple values if the cube has already been
    /// offered
    fn with_jacoby(self) -> (r: Self)
        ensures
            r.rules_of() == (Rules { jacoby: true, ..self.rules_of() }),
    ;

    /// When a player first reaches a score of points - 1, no doubling is allowed for the following
    /// game
    fn with_crawford(self) -> (r: Self)
        ensures
            r.rules_of() == (Rules { crawford: true, ..self.rules_of() }),
    ;

    /// Permits to double after Crawford game only if both players have rolled at least twice
    fn with_holland(self) -> (r: Self)
        ensures
            r.rules_of() == (Rules { holland: true, ..self.rules_of() }),
    ;
}

impl SetRules for Rules {
    open spec fn rules_of(self) -> Rules {
        self
    }

    fn with_points(self, points: u32) -> (r: Self) {
        Rules { points, ..self }
    }

    fn with_beaver(self) -> (r: Self) {
        Rules { beaver: true, ..self }
    }

    fn with_raccoon(self) -> (r: Self) {
        Rules { raccoon: true, ..self }
    }

    fn with_murphy(self, limit: u8) -> (r: Self) {
        Rules { murphy: true, murphy_limit: limit, ..self }
    }

    fn with_jacoby(self) -> (r: Self) {
        Rules { jacoby: true, ..self }
    }

    fn with_crawford(self) -> (r: Self) {
        Rules { crawford: true, ..self }
    }

    fn with_holland(self) -> (r: Self) {
        Rules { holland: true, ..self }
    }
}

} // verus!
