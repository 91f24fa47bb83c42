use vstd::prelude::*;
use rand::distributions::Distribution;

verus! {

/// Represents the two dice of a turn and which of their moves have been used.
///
/// Unequal values give two moves (slots 0 and 1; slots 2 and 3 start as used); equal values
/// give four moves of that value. Slot 0 plays the first value, slots 1 to 3 the second.
#[derive(Debug, Clone, Copy, PartialEq, Eq)]
pub struct Dices {
    /// The two dice values
    pub values: (u8, u8),
    /// Whether each of the four moves has been used already.
    pub consumed: (bool, bool, bool, bool),
}

/// A single die face: 1 to 6.
pub open spec fn is_face(v: int) -> bool {
    1 <= v <= 6
}

/// Relies on rand's `Uniform::new_inclusive(1, 6)`, sampled from `thread_rng()`: the result lies
/// in the closed range from 1 to 6.
#[verifier::external_body]
fn die_face() -> (r: u8)
    ensures
        is_face(r as int),
{
    rand::distributions::Uniform::new_inclusive(1u8, 6u8).sample(&mut rand::thread_rng())
}

/// Rolls two dice: two independent values between 1 and 6.
pub fn roll() -> (r: (u8, u8))
    ensures
        is_face(r.0 as int),
        is_face(r.1 as int),
{
    let first = die_face();
    let second = die_face();
    (first, second)
}

impl Default for Dices {
    /// Dice that were never rolled: both values 0, no slot used.
    fn default() -> (r: Dices)
        ensures
            r == Dices::unrolled(),
    {
        Dices { values: (0, 0), consumed: (false, false, false, false) }
    }
}

impl Dices {
    /// Dice that hold no larger value than a die face (0 stands for "not rolled yet").
    pub open spec fn wf(self) -> bool {
        self.values.0 <= 6 && self.values.1 <= 6
    }

    /// Dice that were never rolled.
    pub open spec fn unrolled() -> Dices {
        Dices { values: (0, 0), consumed: (false, false, false, false) }
    }

    /// The dice right after rolling `a` and `b`.
    pub open spec fn rolled(a: u8, b: u8) -> Dices {
        Dices {
            values: (a, b),
            consumed: if a == b {
                (false, false, false, false)
            } else {
                (false, false, true, true)
            },
        }
    }

    /// All four moves of the roll have been used.
    pub open spec fn all_used(self) -> bool {
        self.consumed.0 && self.consumed.1 && self.consumed.2 && self.consumed.3
    }

    /// `die` is one of the two rolled faces.
    pub open spec fn shows(self, die: u8) -> bool {
        die == self.values.0 || die == self.values.1
    }

    /// A move of value `die` is still left.
    pub open spec fn available(self, die: u8) -> bool {
        (die == self.values.0 && !self.consumed.0) || (die == self.values.1 && (!self.consumed.1
            || !self.consumed.2 || !self.consumed.3))
    }

    /// The dice after the first unused slot of value `die` is marked as used.
    pub open spec fn use_die(self, die: u8) -> Dices {
        let c = self.consumed;
        let consumed = if die == self.values.0 && !c.0 {
            (true, c.1, c.2, c.3)
        } else if die == self.values.1 && !c.1 {
            (c.0, true, c.2, c.3)
        } else if die == self.values.1 && !c.2 {
            (c.0, c.1, true, c.3)
        } else if die == self.values.1 && !c.3 {
            (c.0, c.1, c.2, true)
        } else {
            c
        };
        Dices { values: self.values, consumed }
    }

    /// The number of moves that are still left.
    pub open spec fn moves_left(self) -> int {
        (if self.consumed.0 { 0int } else { 1int }) + (if self.consumed.1 { 0int } else { 1int })
            + (if self.consumed.2 { 0int } else { 1int }) + (if self.consumed.3 { 0int } else { 1int })
    }

    /// The dice for a roll of `a` and `b`.
    pub fn from_values(a: u8, b: u8) -> (r: Dices)
        ensures
            r == Dices::rolled(a, b),
    {
        if a == b {
            Dices { values: (a, b), consumed: (false, false, false, false) }
        } else {
            Dices { values: (a, b), consumed: (false, false, true, true) }
        }
    }

    /// Roll the dices which generates two random numbers between 1 and 6, replicating a perfect
    /// dice. The previous dice are replaced as a whole.
    pub fn roll(self) -> (r: Self)
        ensures
            is_face(r.values.0 as int),
            is_face(r.values.1 as int),
            r == Dices::rolled(r.values.0, r.values.1),
    {
        let (a, b) = roll();
        Dices::from_values(a, b)
    }

    /// Whether no value is larger than a die face.
    pub fn is_valid(&self) -> (r: bool)
        ensures
            r == self.wf(),
    {
        self.values.0 <= 6 && self.values.1 <= 6
    }

    /// Whether all moves of the roll have been used.
    pub fn is_consumed(&self) -> (r: bool)
        ensures
            r == self.all_used(),
    {
        self.consumed.0 && self.consumed.1 && self.consumed.2 && self.consumed.3
    }

    /// Whether a move of value `die` is still left.
    pub fn can_use(&self, die: u8) -> (r: bool)
        ensures
            r == self.available(die),
    {
        (die == self.values.0 && !self.consumed.0) || (die == self.values.1 && (!self.consumed.1
            || !self.consumed.2 || !self.consumed.3))
    }

    /// Marks the first unused slot of value `die` as used.
    pub fn consume(&mut self, die: u8)
        ensures
            *final(self) == old(self).use_die(die),
            old(self).available(die) ==> final(self).moves_left() == old(self).moves_left() - 1,
    {
        if die == self.values.0 && !self.consumed.0 {
            self.consumed.0 = true;
        } else if die == self.values.1 && !self.consumed.1 {
            self.consumed.1 = true;
        } else if die == self.values.1 && !self.consumed.2 {
            self.consumed.2 = true;
        } else if die == self.values.1 && !self.consumed.3 {
            self.consumed.3 = true;
        }
    }
}

/// Trait to roll the dices
pub trait Roll: Sized {
    /// Roll the dices for the player `by`.
    fn roll(&mut self, by: crate::player::Player) -> Result<(), crate::error::Error>;
}

} // verus!
