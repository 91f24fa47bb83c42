use vstd::prelude::*;
use crate::error::Error;
use crate::player::Player;

verus! {

/// Number of points on the board.
pub const POINTS: usize = 24;

/// Number of checkers each player owns.
pub const CHECKERS: u8 = 15;

/// The sum of the checker counts in `s`.
pub open spec fn sum_points(s: Seq<u8>) -> int
    decreases s.len(),
{
    if s.len() == 0 {
        0
    } else {
        sum_points(s.drop_last()) + s.last() as int
    }
}

/// Changing one count changes the sum by the difference.
pub proof fn lemma_sum_update(s: Seq<u8>, i: int, v: u8)
    requires
        0 <= i < s.len(),
    ensures
        sum_points(s.update(i, v)) == sum_points(s) - s[i] + v,
    decreases s.len(),
{
    let t = s.update(i, v);
    if i == s.len() - 1 {
        assert(t.drop_last() =~= s.drop_last());
    } else {
        assert(t.drop_last() =~= s.drop_last().update(i, v));
        lemma_sum_update(s.drop_last(), i, v);
    }
}

/// No single count exceeds the sum.
pub proof fn lemma_count_below_sum(s: Seq<u8>, i: int)
    requires
        0 <= i < s.len(),
    ensures
        s[i] <= sum_points(s),
        sum_points(s) >= 0,
    decreases s.len(),
{
    if s.len() > 1 {
        let j = if i < s.len() - 1 {
            i
        } else {
            0
        };
        lemma_count_below_sum(s.drop_last(), j);
        assert(s.drop_last()[j] == s[j]);
    } else {
        assert(sum_points(s.drop_last()) == 0);
    }
}

/// The point that `point` of one player is for the other: the board seen from the other side.
pub open spec fn mirror(point: int) -> int {
    23 - point
}

/// Returns the point that `point` of one player is for the other player.
pub fn mirror_point(point: usize) -> (r: usize)
    requires
        point < POINTS,
    ensures
        r == mirror(point as int),
{
    23 - point
}

/// The starting position of each player, from its own side: 2 checkers on point 23, 5 on point
/// 12, 3 on point 7 and 5 on point 5.
pub open spec fn start_points() -> Seq<u8> {
    seq![0u8, 0, 0, 0, 0, 5, 0, 3, 0, 0, 0, 0, 5, 0, 0, 0, 0, 0, 0, 0, 0, 0, 0, 2]
}

/// Represents the Backgammon board for one player, from that player's side.
#[derive(Debug, Clone, Copy, PartialEq, Eq)]
pub struct PlayerBoard {
    /// Checkers of the player on each point, 0 to 23.
    pub board: [u8; 24],
    /// Checkers of the player on the bar.
    pub bar: u8,
    /// Checkers of the player borne off.
    pub off: u8,
}

impl PlayerBoard {
    /// All checkers of the player: on the points, on the bar and borne off.
    pub open spec fn total(self) -> int {
        sum_points(self.board@) + self.bar + self.off
    }

    /// Counts all checkers of the player: on the points, on the bar and borne off.
    pub fn checkers(&self) -> (r: u32)
        ensures
            r == self.total(),
    {
        let mut sum: u32 = 0;
        let mut i: usize = 0;
        while i < POINTS
            invariant
                i <= POINTS,
                sum == sum_points(self.board@.take(i as int)),
                sum <= 255 * i,
            decreases POINTS - i,
        {
            assert(self.board@.take(i + 1).drop_last() =~= self.board@.take(i as int));
            sum = sum + self.board[i] as u32;
            i = i + 1;
        }
        assert(self.board@.take(24) =~= self.board@);
        sum + self.bar as u32 + self.off as u32
    }
}

impl Default for PlayerBoard {
    /// The starting position.
    fn default() -> (r: PlayerBoard)
        ensures
            r.board@ == start_points(),
            r.bar == 0,
            r.off == 0,
            r.total() == CHECKERS,
    {
        let r = PlayerBoard {
            board: [0, 0, 0, 0, 0, 5, 0, 3, 0, 0, 0, 0, 5, 0, 0, 0, 0, 0, 0, 0, 0, 0, 0, 2],
            bar: 0,
            off: 0,
        };
        assert(r.board@ =~= start_points());
        proof {
            reveal_with_fuel(sum_points, 25);
        }
        r
    }
}

/// Represents the Backgammon board for both players (to be used for graphical representation).
#[derive(Debug, PartialEq, Eq)]
pub struct BoardDisplay {
    /// The board represented as an array of 24 fields, each of which can hold 0 or more checkers.
    /// Positive amounts represent checkers of player 0, negative amounts represent checkers of
    /// player 1.
    pub board: [i8; 24],
    /// The bar for both players
    pub bar: (u8, u8),
    /// The off for both players
    pub off: (u8, u8),
}

/// Represents the Backgammon board: 24 points, the bar and the off area of each player.
///
/// Each player counts the points from its own side: point 23 is the farthest from home, where
/// two checkers start, and point `p` of one player is point `23 - p` of the other.
#[derive(Debug, Clone, Copy, PartialEq, Eq)]
pub struct Board {
    raw_board: (PlayerBoard, PlayerBoard),
}

impl Default for Board {
    /// Both players in the starting position.
    fn default() -> (r: Board)
        ensures
            r.is_start(),
            r.side(Player::Player0).total() == CHECKERS,
            r.side(Player::Player1).total() == CHECKERS,
    {
        Board { raw_board: (PlayerBoard::default(), PlayerBoard::default()) }
    }
}

impl Board {
    /// The checkers of `player`, from its own side (player 0's for `Nobody`).
    pub closed spec fn side(self, player: Player) -> PlayerBoard {
        if player == Player::Player1 {
            self.raw_board.1
        } else {
            self.raw_board.0
        }
    }

    /// Both players are in the starting position, with nothing on the bar or borne off.
    pub open spec fn is_start(self) -> bool {
        &&& self.side(Player::Player0).board@ == start_points()
        &&& self.side(Player::Player1).board@ == start_points()
        &&& self.side(Player::Player0).bar == 0 && self.side(Player::Player0).off == 0
        &&& self.side(Player::Player1).bar == 0 && self.side(Player::Player1).off == 0
    }

    /// Checkers of `player` on its point `point`.
    pub open spec fn count(self, player: Player, point: int) -> int {
        self.side(player).board@[point] as int
    }

    /// `point` of `player` is blocked: the opponent holds two or more checkers there.
    pub open spec fn is_blocked(self, player: Player, point: int) -> bool {
        self.count(player.opponent(), mirror(point)) >= 2
    }

    /// What `blocked(player, point)` returns.
    pub open spec fn blocked_result(self, player: Player, point: int) -> Result<bool, Error> {
        if point > 23 {
            Err(Error::FieldInvalid)
        } else if player == Player::Nobody {
            Err(Error::PlayerInvalid)
        } else {
            Ok(self.is_blocked(player, point))
        }
    }

    /// The error, if any, of `set(player, point, amount)`.
    pub open spec fn set_error(self, player: Player, point: int, amount: int) -> Option<Error> {
        let opp = self.side(player.opponent());
        if point > 23 {
            Some(Error::FieldInvalid)
        } else if player == Player::Nobody {
            Some(Error::PlayerInvalid)
        } else if self.is_blocked(player, point) {
            Some(Error::FieldBlocked)
        } else if !(0 <= self.count(player, point) + amount <= u8::MAX) {
            Some(Error::MoveInvalid)
        } else if amount > 0 && opp.bar + opp.board@[mirror(point)] > u8::MAX {
            Some(Error::MoveInvalid)
        } else {
            None
        }
    }

    /// `after` is this board once `amount` checkers of `player` were added to `point` (removed
    /// for a negative amount). A checker added onto a lone opposing checker hits it: that checker
    /// goes from its point to its owner's bar.
    pub open spec fn placed(self, after: Board, player: Player, point: int, amount: int) -> bool {
        let mine = self.side(player);
        let theirs = self.side(player.opponent());
        let m = mirror(point);
        &&& after.side(player).board@ == mine.board@.update(
            point,
            (mine.board@[point] + amount) as u8,
        )
        &&& after.side(player).bar == mine.bar
        &&& after.side(player).off == mine.off
        &&& if amount > 0 {
            &&& after.side(player.opponent()).board@ == theirs.board@.update(m, 0)
            &&& after.side(player.opponent()).bar == theirs.bar + theirs.board@[m]
            &&& after.side(player.opponent()).off == theirs.off
        } else {
            after.side(player.opponent()) == theirs
        }
    }

    /// `after` is this board once a checker of `player` went from its point `from` to its point
    /// `to`, hitting a lone opposing checker there.
    pub open spec fn moved(self, after: Board, player: Player, from: int, to: int) -> bool {
        let mine = self.side(player);
        let theirs = self.side(player.opponent());
        let m = mirror(to);
        &&& after.side(player).board@ == mine.board@.update(
            from,
            (mine.board@[from] - 1) as u8,
        ).update(to, (mine.board@[to] + 1) as u8)
        &&& after.side(player).bar == mine.bar
        &&& after.side(player).off == mine.off
        &&& after.side(player.opponent()).board@ == theirs.board@.update(m, 0)
        &&& after.side(player.opponent()).bar == theirs.bar + theirs.board@[m]
        &&& after.side(player.opponent()).off == theirs.off
    }

    /// `after` is this board once a checker of `player` on its point `from` was borne off.
    pub open spec fn borne_off(self, after: Board, player: Player, from: int) -> bool {
        let mine = self.side(player);
        &&& after.side(player).board@ == mine.board@.update(from, (mine.board@[from] - 1) as u8)
        &&& after.side(player).bar == mine.bar
        &&& after.side(player).off == mine.off + 1
        &&& after.side(player.opponent()) == self.side(player.opponent())
    }

    /// `after` is this board once a checker of `player` entered from the bar onto its point
    /// `to`, hitting a lone opposing checker there.
    pub open spec fn entered(self, after: Board, player: Player, to: int) -> bool {
        let mine = self.side(player);
        let theirs = self.side(player.opponent());
        let m = mirror(to);
        &&& after.side(player).board@ == mine.board@.update(to, (mine.board@[to] + 1) as u8)
        &&& after.side(player).bar == mine.bar - 1
        &&& after.side(player).off == mine.off
        &&& after.side(player.opponent()).board@ == theirs.board@.update(m, 0)
        &&& after.side(player.opponent()).bar == theirs.bar + theirs.board@[m]
        &&& after.side(player.opponent()).off == theirs.off
    }

    /// The bar of player 0 and of player 1.
    pub open spec fn get_bar_spec(self) -> (u8, u8) {
        (self.side(Player::Player0).bar, self.side(Player::Player1).bar)
    }

    /// The off of player 0 and of player 1.
    pub open spec fn get_off_spec(self) -> (u8, u8) {
        (self.side(Player::Player0).off, self.side(Player::Player1).off)
    }

    /// Every signed count of `get` fits in an `i8`.
    pub open spec fn displayable(self) -> bool {
        forall|i: int|
            0 <= i < 24 ==> -128 <= #[trigger] self.count(Player::Player0, i) - self.count(
                Player::Player1,
                mirror(i),
            ) <= 127
    }

    /// Create a new board
    pub fn new() -> (r: Self)
        ensures
            r.is_start(),
            r.side(Player::Player0).total() == CHECKERS,
            r.side(Player::Player1).total() == CHECKERS,
    {
        Board::default()
    }

    /// A board with `player0` as the checkers of player 0 and `player1` as those of player 1,
    /// each from its own side.
    pub fn from_sides(player0: PlayerBoard, player1: PlayerBoard) -> (r: Board)
        ensures
            r.side(Player::Player0) == player0,
            r.side(Player::Player1) == player1,
    {
        Board { raw_board: (player0, player1) }
    }

    /// The checkers of `player`, from its own side (player 0's for `Nobody`).
    pub fn side_of(&self, player: Player) -> (r: PlayerBoard)
        ensures
            r == self.side(player),
    {
        if player == Player::Player1 {
            self.raw_board.1
        } else {
            self.raw_board.0
        }
    }

    /// Stores `mine` as the checkers of `player` and `theirs` as those of its opponent.
    fn put(&mut self, player: Player, mine: PlayerBoard, theirs: PlayerBoard)
        requires
            player != Player::Nobody,
        ensures
            final(self).side(player) == mine,
            final(self).side(player.opponent()) == theirs,
    {
        if player == Player::Player0 {
            self.raw_board = (mine, theirs);
        } else {
            self.raw_board = (theirs, mine);
        }
    }

    /// Get the board for both players. Use for graphical representation of the board.
    ///
    /// Point `i` shows player 0's checkers on its point `i` as a positive amount and player 1's
    /// checkers on the same spot (its point `23 - i`) as a negative amount.
    pub fn get(&self) -> (r: BoardDisplay)
        requires
            self.displayable(),
        ensures
            forall|i: int|
                0 <= i < 24 ==> #[trigger] r.board@[i] == self.count(Player::Player0, i)
                    - self.count(Player::Player1, mirror(i)),
            r.bar == self.get_bar_spec(),
            r.off == self.get_off_spec(),
    {
        let mut board: [i8; 24] = [0; 24];
        let mut i: usize = 0;
        while i < POINTS
            invariant
                i <= POINTS,
                self.displayable(),
                forall|j: int|
                    0 <= j < i ==> #[trigger] board@[j] == self.count(Player::Player0, j)
                        - self.count(Player::Player1, mirror(j)),
            decreases POINTS - i,
        {
            let mine = self.raw_board.0.board[i] as i16;
            let theirs = self.raw_board.1.board[mirror_point(i)] as i16;
            assert(-128 <= self.count(Player::Player0, i as int) - self.count(
                Player::Player1,
                mirror(i as int),
            ) <= 127);
            board[i] = (mine - theirs) as i8;
            i = i + 1;
        }
        BoardDisplay { board, bar: self.get_bar(), off: self.get_off() }
    }

    /// Get the bar for both players
    pub fn get_bar(&self) -> (r: (u8, u8))
        ensures
            r == self.get_bar_spec(),
    {
        (self.raw_board.0.bar, self.raw_board.1.bar)
    }

    /// Get the off for both players
    pub fn get_off(&self) -> (r: (u8, u8))
        ensures
            r == self.get_off_spec(),
    {
        (self.raw_board.0.off, self.raw_board.1.off)
    }

    /// Check if a field is blocked for a player: the opponent holds two or more checkers there.
    pub fn blocked(&self, player: Player, field: usize) -> (r: Result<bool, Error>)
        ensures
            r == self.blocked_result(player, field as int),
    {
        if field > 23 {
            return Err(Error::FieldInvalid);
        }
        let m = mirror_point(field);
        match player {
            Player::Player0 => Ok(self.raw_board.1.board[m] > 1),
            Player::Player1 => Ok(self.raw_board.0.board[m] > 1),
            Player::Nobody => Err(Error::PlayerInvalid),
        }
    }

    /// Set checkers for a player on a field
    ///
    /// Adds `amount` checkers of `player` on `field` (removes them for a negative amount). The
    /// field is numbered from 0 to 23 from the player's own side. A blocked field, a count that
    /// would leave the range of a `u8` and `Nobody` are refused, and the board stays as it was.
    /// A checker added onto a single checker of the opponent hits it: that checker is moved to
    /// the opponent's bar.
    pub fn set(&mut self, player: Player, field: usize, amount: i8) -> (r: Result<(), Error>)
        ensures
            old(self).set_error(player, field as int, amount as int) matches Some(e) ==> r == Err::<
                (),
                Error,
            >(e) && *final(self) == *old(self),
            old(self).set_error(player, field as int, amount as int) is None ==> r is Ok
                && old(self).placed(*final(self), player, field as int, amount as int),
    {
        if field > 23 {
            return Err(Error::FieldInvalid);
        }
        match self.blocked(player, field) {
            Err(e) => {
                return Err(e);
            },
            Ok(true) => {
                return Err(Error::FieldBlocked);
            },
            Ok(false) => {},
        }
        let mut mine = self.side_of(player);
        let mut theirs = self.side_of(player.other());
        let new: i16 = mine.board[field] as i16 + amount as i16;
        if new < 0 || new > 255 {
            return Err(Error::MoveInvalid);
        }
        let m = mirror_point(field);
        if amount > 0 {
            // a single opposing checker on the field is hit and goes to the bar
            let hit = theirs.board[m];
            if theirs.bar as u16 + hit as u16 > 255 {
                return Err(Error::MoveInvalid);
            }
            theirs.bar = theirs.bar + hit;
            theirs.board[m] = 0;
        }
        mine.board[field] = new as u8;
        self.put(player, mine, theirs);
        Ok(())
    }

    /// Set checkers for a player on the bar. This method adds amount to the already existing
    /// checkers there; a count below 0 or above 255 is refused.
    pub fn set_bar(&mut self, player: Player, amount: i8) -> (r: Result<(), Error>)
        ensures
            player == Player::Nobody ==> r == Err::<(), Error>(Error::PlayerInvalid) && *final(self)
                == *old(self),
            player != Player::Nobody && !(0 <= old(self).side(player).bar + amount <= u8::MAX)
                ==> r == Err::<(), Error>(Error::MoveInvalid) && *final(self) == *old(self),
            player != Player::Nobody && 0 <= old(self).side(player).bar + amount <= u8::MAX ==> {
                &&& r is Ok
                &&& final(self).side(player) == (PlayerBoard {
                    bar: (old(self).side(player).bar + amount) as u8,
                    ..old(self).side(player)
                })
                &&& final(self).side(player.opponent()) == old(self).side(player.opponent())
            },
    {
        if player == Player::Nobody {
            return Err(Error::PlayerInvalid);
        }
        let mut mine = self.side_of(player);
        let theirs = self.side_of(player.other());
        let new: i16 = mine.bar as i16 + amount as i16;
        if new < 0 || new > 255 {
            return Err(Error::MoveInvalid);
        }
        mine.bar = new as u8;
        self.put(player, mine, theirs);
        Ok(())
    }

    /// Set checkers for a player off the board. This method adds amount to the already existing
    /// checkers there; a count above 255 is refused.
    pub fn set_off(&mut self, player: Player, amount: u8) -> (r: Result<(), Error>)
        ensures
            player == Player::Nobody ==> r == Err::<(), Error>(Error::PlayerInvalid) && *final(self)
                == *old(self),
            player != Player::Nobody && old(self).side(player).off + amount > u8::MAX ==> r
                == Err::<(), Error>(Error::MoveInvalid) && *final(self) == *old(self),
            player != Player::Nobody && old(self).side(player).off + amount <= u8::MAX ==> {
                &&& r is Ok
                &&& final(self).side(player) == (PlayerBoard {
                    off: (old(self).side(player).off + amount) as u8,
                    ..old(self).side(player)
                })
                &&& final(self).side(player.opponent()) == old(self).side(player.opponent())
            },
    {
        if player == Player::Nobody {
            return Err(Error::PlayerInvalid);
        }
        let mut mine = self.side_of(player);
        let theirs = self.side_of(player.other());
        if mine.off as u16 + amount as u16 > 255 {
            return Err(Error::MoveInvalid);
        }
        mine.off = mine.off + amount;
        self.put(player, mine, theirs);
        Ok(())
    }
}

/// Hitting: a checker added onto a point that holds exactly one opposing checker is accepted,
/// empties that point of the opponent and puts the hit checker on the opponent's bar; a point
/// that holds two or more opposing checkers refuses it with `FieldBlocked`.
pub proof fn lemma_hit(b: Board, player: Player, point: int, after: Board)
    requires
        player != Player::Nobody,
        0 <= point <= 23,
        b.side(player).total() == CHECKERS,
        b.side(player.opponent()).total() == CHECKERS,
    ensures
        b.count(player.opponent(), mirror(point)) == 1 ==> b.set_error(player, point, 1) is None,
        b.count(player.opponent(), mirror(point)) == 1 && b.placed(after, player, point, 1) ==> {
            &&& after.count(player.opponent(), mirror(point)) == 0
            &&& after.side(player.opponent()).bar == b.side(player.opponent()).bar + 1
        },
        b.count(player.opponent(), mirror(point)) >= 2 ==> b.set_error(player, point, 1) == Some(
            Error::FieldBlocked,
        ),
{
    lemma_count_below_sum(b.side(player).board@, point);
    lemma_count_below_sum(b.side(player.opponent()).board@, mirror(point));
}

/// Conservation: moving a checker from one point to another, bearing one off, or entering one
/// from the bar leaves each player with as many checkers as before (points, bar and off
/// together), hits included.
pub proof fn lemma_conservation(b: Board, after: Board, player: Player, from: int, to: int)
    requires
        player != Player::Nobody,
        0 <= from < 24,
        0 <= to < 24,
        from != to,
        b.count(player, to) < 255,
    ensures
        b.count(player, from) >= 1 && b.moved(after, player, from, to) ==> {
            &&& after.side(player).total() == b.side(player).total()
            &&& after.side(player.opponent()).total() == b.side(player.opponent()).total()
        },
        b.count(player, from) >= 1 && b.borne_off(after, player, from) ==> {
            &&& after.side(player).total() == b.side(player).total()
            &&& after.side(player.opponent()).total() == b.side(player.opponent()).total()
        },
        b.side(player).bar >= 1 && b.entered(after, player, to) ==> {
            &&& after.side(player).total() == b.side(player).total()
            &&& after.side(player.opponent()).total() == b.side(player.opponent()).total()
        },
{
    let s = b.side(player).board@;
    let t = b.side(player.opponent()).board@;
    if s[from] >= 1 {
        let s1 = s.update(from, (s[from] - 1) as u8);
        lemma_sum_update(s, from, (s[from] - 1) as u8);
        lemma_sum_update(s1, to, (s[to] + 1) as u8);
    }
    lemma_sum_update(s, to, (s[to] + 1) as u8);
    lemma_sum_update(t, mirror(to), 0);
}

/// Trait to move checkers
pub trait Move: Sized {
    /// Move a checker of `player` by `dice` points from its point `from`.
    fn move_checker(&mut self, player: Player, dice: u8, from: usize) -> Result<(), Error>;

    /// Move a checker of `player` from the bar onto the board with `dice`.
    fn move_checker_from_bar(&mut self, player: Player, dice: u8) -> Result<(), Error>;

    /// Whether `player` may now move with `dice`.
    fn move_permitted(&self, player: Player, dice: u8) -> Result<(), Error>;
}

} // verus!
