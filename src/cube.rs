use vstd::prelude::*;
use vstd::arithmetic::power2::{
    pow2, lemma_pow2_pos, lemma_pow2_unfold, lemma_pow2_strictly_increases, lemma2_to64_rest,
};
use crate::error::Error;
use crate::player::Player;

verus! {

/// The largest exponent of a cube whose value fits in a `u64`.
pub const MAX_EXPONENT: u8 = 63;

/// `v` is a power of two.
pub open spec fn is_power_of_two(v: int) -> bool {
    exists|e: nat| pow2(e) == v
}

/// An odd number above 1 times a power of two is no power of two.
proof fn lemma_odd_times_pow2(v: nat, e: nat, k: nat)
    requires
        v > 1,
        v % 2 == 1,
    ensures
        pow2(k) != v * pow2(e),
    decreases e,
{
    lemma_pow2_pos(e);
    if k > 0 {
        lemma_pow2_unfold(k);
    }
    if e == 0 {
        assert(pow2(0) == 1) by {
            lemma2_to64_rest();
            vstd::arithmetic::power2::lemma2_to64();
        }
    } else {
        lemma_pow2_unfold(e);
        let h = pow2((e - 1) as nat);
        assert(v * pow2(e) == 2 * (v * h)) by (nonlinear_arith)
            requires
                pow2(e) == 2 * h,
        ;
        if k == 0 {
            assert(pow2(0) == 1) by {
                vstd::arithmetic::power2::lemma2_to64();
            }
            assert(v * pow2(e) >= 2) by (nonlinear_arith)
                requires
                    v > 1,
                    pow2(e) > 0,
            ;
        } else {
            lemma_odd_times_pow2(v, (e - 1) as nat, (k - 1) as nat);
        }
    }
}

/// Every power of two that fits in a `u64` has an exponent of at most 63.
proof fn lemma_exponent_fits(e: nat)
    requires
        pow2(e) <= u64::MAX,
    ensures
        e <= 63,
{
    if e > 63 {
        lemma2_to64_rest();
        if e > 64 {
            lemma_pow2_strictly_increases(64, e);
        }
    }
}

/// Doubling: an offer naming `taker` is allowed on a cube that `taker` does not hold; once
/// `taker` has taken the offered (doubled) value, the cube holds that value, `taker` holds the
/// cube, and a further offer naming `taker` is refused while the other player may still offer.
pub proof fn lemma_taken_cube(c: Cube, taker: Player, taken: Cube)
    requires
        c.wf(),
        taker != Player::Nobody,
        c.holder() != taker,
        c.exponent() < MAX_EXPONENT,
        taken.stake() == 2 * c.stake(),
        taken.holder() == taker,
    ensures
        c.may_offer(taker),
        taken.exponent() == c.exponent() + 1,
        taken.wf(),
        !taken.may_offer(taker),
        taken.exponent() < MAX_EXPONENT ==> taken.may_offer(taker.opponent()),
{
    lemma_pow2_unfold(c.exponent() + 1);
    if taken.exponent() < c.exponent() + 1 {
        lemma_pow2_strictly_increases(taken.exponent(), c.exponent() + 1);
    } else if taken.exponent() > c.exponent() + 1 {
        lemma_pow2_strictly_increases(c.exponent() + 1, taken.exponent());
    }
}

/// Represents a Backgammon cube (doubling cube).
///
/// This cube represents an increase in the value of the current game. The cube -- a doubling of
/// the value of the game -- can be offered by any player the first time it is used. After that, it
/// can only be offered by the player who does not hold it.
#[derive(Debug, Clone, Copy, PartialEq, Eq)]
pub struct Cube {
    exponential: u8,
    owner: Player,
}

impl Default for Cube {
    /// A cube of value 1 that nobody holds.
    fn default() -> (r: Cube)
        ensures
            r.exponent() == 0,
            r.holder() == Player::Nobody,
    {
        Cube { exponential: 0, owner: Player::Nobody }
    }
}

impl Cube {
    #[verifier::type_invariant]
    pub(crate) open spec fn inv(self) -> bool {
        self.wf()
    }

    /// The exponent `e` of the stake `2^e`.
    pub closed spec fn exponent(self) -> nat {
        self.exponential as nat
    }

    /// The player who holds the cube, `Nobody` while it was never taken.
    pub closed spec fn holder(self) -> Player {
        self.owner
    }

    /// The stake fits in a `u64`.
    pub open spec fn wf(self) -> bool {
        self.exponent() <= MAX_EXPONENT
    }

    /// The stake of the game: `2^exponent`.
    pub open spec fn stake(self) -> nat {
        pow2(self.exponent())
    }

    /// `by` may offer a double: the cube was never taken or somebody else holds it, and the
    /// doubled stake still fits in a `u64`.
    pub open spec fn may_offer(self, by: Player) -> bool {
        (self.holder() == Player::Nobody || self.holder() != by) && self.exponent() < MAX_EXPONENT
    }

    /// Returns the value of the cube
    pub fn value(&self) -> (r: u64)
        ensures
            r == self.stake(),
            self.wf(),
    {
        proof {
            use_type_invariant(self);
        }
        let mut r: u64 = 1;
        let mut i: u8 = 0;
        proof {
            vstd::arithmetic::power2::lemma2_to64();
        }
        while i < self.exponential
            invariant
                i <= self.exponential <= MAX_EXPONENT,
                r == pow2(i as nat),
            decreases self.exponential - i,
        {
            proof {
                lemma_pow2_unfold((i + 1) as nat);
                lemma2_to64_rest();
                if i + 1 < 63 {
                    lemma_pow2_strictly_increases((i + 1) as nat, 63);
                }
            }
            r = r * 2;
            i = i + 1;
        }
        r
    }

    /// The stake can still be doubled within a `u64`.
    pub fn can_double(&self) -> (r: bool)
        ensures
            r == (self.exponent() < MAX_EXPONENT),
            self.wf(),
    {
        proof {
            use_type_invariant(self);
        }
        self.exponential < MAX_EXPONENT
    }

    /// Whether the stake fits in a `u64`.
    /// Returns the owner of the cube
    pub fn owner(&self) -> (r: Player)
        ensures
            r == self.holder(),
    {
        self.owner
    }

    /// Set the value of the cube. Fails with `CubeValueInvalid` unless `value` is a power of two.
    pub fn set(&mut self, value: u64) -> (r: Result<(), Error>)
        ensures
            r is Ok <==> is_power_of_two(value as int),
            r is Ok ==> final(self).wf() && final(self).stake() == value,
            r is Ok ==> final(self).holder() == old(self).holder(),
            r is Err ==> r == Err::<(), Error>(Error::CubeValueInvalid) && *final(self) == *old(
                self,
            ),
    {
        if value == 0 {
            proof {
                assert forall|e: nat| pow2(e) != value by {
                    lemma_pow2_pos(e);
                }
            }
            return Err(Error::CubeValueInvalid);
        }
        let mut v: u64 = value;
        let mut e: u8 = 0;
        proof {
            vstd::arithmetic::power2::lemma2_to64();
        }
        while v > 1 && v % 2 == 0
            invariant
                v >= 1,
                value == v * pow2(e as nat),
                e <= MAX_EXPONENT,
            decreases v,
        {
            proof {
                lemma_pow2_unfold((e + 1) as nat);
                assert(value == (v / 2) * pow2((e + 1) as nat)) by (nonlinear_arith)
                    requires
                        value == v * pow2(e as nat),
                        v % 2 == 0,
                        pow2((e + 1) as nat) == 2 * pow2(e as nat),
                ;
                assert(pow2((e + 1) as nat) <= value) by (nonlinear_arith)
                    requires
                        value == (v / 2) * pow2((e + 1) as nat),
                        v / 2 >= 1,
                ;
                lemma_exponent_fits((e + 1) as nat);
            }
            v = v / 2;
            e = e + 1;
        }
        if v == 1 {
            self.exponential = e;
            Ok(())
        } else {
            proof {
                assert forall|k: nat| pow2(k) != value by {
                    lemma_odd_times_pow2(v as nat, e as nat, k);
                }
            }
            Err(Error::CubeValueInvalid)
        }
    }

    /// Set owner of cube.
    pub fn set_owner(&mut self, owner: Player)
        ensures
            final(self).holder() == owner,
            final(self).exponent() == old(self).exponent(),
    {
        proof {
            use_type_invariant(&*self);
        }
        self.owner = owner;
    }

    /// Calculate the next value of the cube when `by` offers it to the opponent: twice the
    /// current value. The cube itself is left as it is.
    pub fn offer(&self, by: Player) -> (r: Result<u64, Error>)
        ensures
            self.wf(),
            self.may_offer(by) ==> r == Ok::<u64, Error>((2 * self.stake()) as u64),
            !self.may_offer(by) ==> r == Err::<u64, Error>(Error::DoublingNotPermitted),
    {
        proof {
            use_type_invariant(self);
        }
        if (self.owner == Player::Nobody || self.owner != by) && self.exponential < MAX_EXPONENT {
            let v = self.value();
            proof {
                lemma2_to64_rest();
                if self.exponential < 62 {
                    lemma_pow2_strictly_increases(self.exponential as nat, 62);
                }
            }
            Ok(v * 2)
        } else {
            Err(Error::DoublingNotPermitted)
        }
    }
}

} // verus!
