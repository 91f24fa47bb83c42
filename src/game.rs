use vstd::prelude::*;
use vstd::arithmetic::power2::{lemma_pow2_unfold, lemma2_to64_rest, lemma_pow2_strictly_increases};
use crate::board::{Board, BoardDisplay, Move, CHECKERS, mirror, lemma_count_below_sum, lemma_sum_update};
use crate::cube::{Cube, MAX_EXPONENT};
use crate::dices::{Dices, Roll, is_face};
use crate::error::Error;
use crate::player::Player;
use crate::rules::{Rules, SetRules, default_rules};

verus! {

/// Completed turns after the Crawford game before the Holland rule allows doubling again.
pub const HOLLAND_TURNS: u8 = 4;

/// The contents of a `Game`: what its contracts speak of, and what a game is stored as.
#[derive(Debug, Clone, Copy, PartialEq, Eq)]
pub struct GameState {
    /// Rules of the game.
    pub rules: Rules,
    /// Last dice pair rolled, with the moves used.
    pub dices: Dices,
    /// Whose turn it is; `Nobody` until the opening roll decides.
    pub who_plays: Player,
    /// Board for player 0 and 1.
    pub board: Board,
    /// Cube value and owner.
    pub cube: Cube,
    /// This is the Crawford game of its match.
    pub crawford: bool,
    /// This game follows the Crawford game of its match.
    pub after_crawford: bool,
    /// Completed turns in this game, counted up to 255.
    pub since_crawford: u8,
    /// The player whose turn it is has to roll before moving.
    pub roll_first: bool,
    /// A doubling offer waits for an answer.
    pub cube_received: bool,
    /// The player who made the pending offer.
    pub offered_by: Player,
}

/// The player who begins after an opening roll of `a` and `b`: the higher roller.
pub open spec fn opening_winner(a: u8, b: u8) -> Player {
    if a > b {
        Player::Player0
    } else if a < b {
        Player::Player1
    } else {
        Player::Nobody
    }
}

impl GameState {
    /// Every game holds these: sane dice and cube, 15 checkers per player, real dice whenever a
    /// player may move, and a cube that can still be doubled while an offer is pending.
    pub open spec fn wf(self) -> bool {
        &&& self.dices.wf()
        &&& self.cube.wf()
        &&& self.board.side(Player::Player0).total() == CHECKERS
        &&& self.board.side(Player::Player1).total() == CHECKERS
        &&& (self.who_plays != Player::Nobody && !self.roll_first) ==> is_face(
            self.dices.values.0 as int,
        ) && is_face(self.dices.values.1 as int)
        &&& self.cube_received ==> self.offered_by != Player::Nobody && self.cube.exponent()
            < MAX_EXPONENT
    }

    /// Whether this state is one that a game can be in.
    pub fn is_valid(&self) -> (r: bool)
        ensures
            r == self.wf(),
    {
        proof {
            use_type_invariant(&self.cube);
        }
        let faces_ok = self.who_plays == Player::Nobody || self.roll_first || (1 <= self.dices.values.0
            && self.dices.values.0 <= 6 && 1 <= self.dices.values.1 && self.dices.values.1 <= 6);
        let offer_ok = !self.cube_received || (self.offered_by != Player::Nobody
            && self.cube.can_double());
        self.dices.is_valid() && self.board.side_of(Player::Player0).checkers() == CHECKERS as u32
            && self.board.side_of(Player::Player1).checkers() == CHECKERS as u32 && faces_ok
            && offer_ok
    }

    /// The error, if any, of a roll by `by`.
    pub open spec fn roll_error(self, by: Player) -> Option<Error> {
        if self.cube_received {
            Some(Error::CubeReceived)
        } else if self.who_plays != Player::Nobody && by != self.who_plays {
            Some(Error::NotYourTurn)
        } else if self.who_plays != Player::Nobody && !self.roll_first {
            Some(Error::MoveFirst)
        } else {
            None
        }
    }

    /// An opening roll of `a` and `b` doubles the cube automatically (Murphy rule).
    pub open spec fn murphy_double(self, a: u8, b: u8) -> bool {
        self.who_plays == Player::Nobody && a == b && self.rules.murphy && self.cube.exponent()
            < MAX_EXPONENT
    }

    /// The game after a roll of `a` and `b`, with `cube` as its cube. An opening roll hands the
    /// turn to the higher roller and leaves it with `Nobody` on equal values.
    pub open spec fn rolled(self, a: u8, b: u8, cube: Cube) -> GameState {
        if self.who_plays == Player::Nobody {
            GameState {
                dices: Dices::rolled(a, b),
                who_plays: opening_winner(a, b),
                roll_first: false,
                cube,
                ..self
            }
        } else {
            GameState { dices: Dices::rolled(a, b), roll_first: false, ..self }
        }
    }

    /// `after` is this game once `a` and `b` were rolled.
    pub open spec fn rolled_into(self, after: GameState, a: u8, b: u8) -> bool {
        &&& after == self.rolled(a, b, after.cube)
        &&& if self.murphy_double(a, b) {
            &&& after.cube.exponent() == self.cube.exponent() + 1
            &&& after.cube.holder() == self.cube.holder()
        } else {
            after.cube == self.cube
        }
    }

    /// Doubling is barred in this game by the Crawford or the Holland rule.
    pub open spec fn doubling_barred(self) -> bool {
        ||| (self.rules.crawford && self.crawford)
        ||| (self.rules.holland && self.after_crawford && self.since_crawford < HOLLAND_TURNS)
    }

    /// The error, if any, of a doubling offer by `by`.
    pub open spec fn offer_error(self, by: Player) -> Option<Error> {
        if by == Player::Nobody {
            Some(Error::PlayerInvalid)
        } else if self.cube_received {
            Some(Error::CubeReceived)
        } else if self.doubling_barred() || !self.cube.may_offer(by) {
            Some(Error::DoublingNotPermitted)
        } else {
            None
        }
    }

    /// The error, if any, of `move_permitted(player, dice)`.
    pub open spec fn permit_error(self, player: Player, dice: u8) -> Option<Error> {
        if player != self.who_plays {
            Some(Error::NotYourTurn)
        } else if self.who_plays == Player::Nobody {
            Some(Error::RollFirst)
        } else if self.cube_received {
            Some(Error::CubeReceived)
        } else if self.roll_first {
            Some(Error::RollFirst)
        } else if !self.dices.shows(dice) {
            Some(Error::DiceInvalid)
        } else {
            None
        }
    }

    /// The error, if any, of moving a checker of `player` by `dice` from its point `from`.
    pub open spec fn move_error(self, player: Player, dice: u8, from: int) -> Option<Error> {
        match self.permit_error(player, dice) {
            Some(e) => Some(e),
            None => if self.board.side(player).bar > 0 {
                Some(Error::MoveInvalidBar)
            } else if !self.dices.available(dice) {
                Some(Error::MoveInvalid)
            } else {
                match self.board.set_error(player, from, -1) {
                    Some(e) => Some(e),
                    None => if from >= dice && self.board.is_blocked(player, from - dice) {
                        Some(Error::FieldBlocked)
                    } else {
                        None
                    },
                }
            },
        }
    }

    /// The error, if any, of entering a checker of `player` from the bar with `dice`.
    pub open spec fn bar_move_error(self, player: Player, dice: u8) -> Option<Error> {
        match self.permit_error(player, dice) {
            Some(e) => Some(e),
            None => if !self.dices.available(dice) {
                Some(Error::MoveInvalid)
            } else if self.board.side(player).bar == 0 {
                Some(Error::MoveInvalid)
            } else if self.board.is_blocked(player, 24 - dice) {
                Some(Error::FieldBlocked)
            } else {
                None
            },
        }
    }

    /// The game once a move of `dice` was used: when no move is left, the turn passes to the
    /// other player, who has to roll first.
    pub open spec fn used(self, dice: u8) -> GameState {
        let d = self.dices.use_die(dice);
        if d.all_used() {
            GameState {
                dices: d,
                who_plays: self.who_plays.opponent(),
                roll_first: true,
                since_crawford: if self.since_crawford < u8::MAX {
                    (self.since_crawford + 1) as u8
                } else {
                    u8::MAX
                },
                ..self
            }
        } else {
            GameState { dices: d, ..self }
        }
    }
}

/// The opening roll: unequal values give the turn to the higher roller, who moves with these
/// very dice without rolling again; equal values leave the turn with `Nobody`, so the players
/// roll again.
pub proof fn lemma_opening_roll(g: GameState, by: Player, a: u8, b: u8, after: GameState)
    requires
        g.wf(),
        g.who_plays == Player::Nobody,
        g.roll_error(by) is None,
        g.rolled_into(after, a, b),
    ensures
        a > b ==> after.who_plays == Player::Player0,
        a < b ==> after.who_plays == Player::Player1,
        a == b ==> after.who_plays == Player::Nobody,
        after.dices == Dices::rolled(a, b),
        !after.roll_first,
        a != b ==> after.dices.available(a) && after.dices.available(b),
{
}

/// Every count of a board with 15 checkers per player is at most 15.
proof fn lemma_small_counts(b: Board, p: Player, i: int)
    requires
        b.side(p).total() == CHECKERS,
        0 <= i < 24,
    ensures
        0 <= b.count(p, i) <= 15,
        b.side(p).bar <= 15,
        b.side(p).off <= 15,
{
    lemma_count_below_sum(b.side(p).board@, i);
}

/// Represents a Backgammon game
#[derive(Debug, Clone, Copy)]
pub struct Game {
    rules: Rules,
    dices: Dices,
    who_plays: Player,
    board: Board,
    cube: Cube,
    crawford: bool,
    after_crawford: bool,
    since_crawford: u8,
    roll_first: bool,
    cube_received: bool,
    offered_by: Player,
}

impl View for Game {
    type V = GameState;

    closed spec fn view(&self) -> GameState {
        GameState {
            rules: self.rules,
            dices: self.dices,
            who_plays: self.who_plays,
            board: self.board,
            cube: self.cube,
            crawford: self.crawford,
            after_crawford: self.after_crawford,
            since_crawford: self.since_crawford,
            roll_first: self.roll_first,
            cube_received: self.cube_received,
            offered_by: self.offered_by,
        }
    }
}

/// The cube once doubled, still with the same holder.
fn doubled_cube(c: Cube) -> (r: Cube)
    requires
        c.wf(),
        c.exponent() < MAX_EXPONENT,
    ensures
        r.wf(),
        r.exponent() == c.exponent() + 1,
        r.stake() == 2 * c.stake(),
        r.holder() == c.holder(),
{
    let v = c.value();
    proof {
        lemma_pow2_unfold(c.exponent() + 1);
        lemma2_to64_rest();
        if c.exponent() + 1 < 63 {
            lemma_pow2_strictly_increases(c.exponent() + 1, 63);
        }
    }
    let mut r = c;
    let res = r.set(v * 2);
    assert(res is Ok);
    proof {
        if r.exponent() < c.exponent() + 1 {
            lemma_pow2_strictly_increases(r.exponent(), c.exponent() + 1);
        } else if r.exponent() > c.exponent() + 1 {
            lemma_pow2_strictly_increases(c.exponent() + 1, r.exponent());
        }
    }
    r
}

impl Game {
    #[verifier::type_invariant]
    spec fn inv(self) -> bool {
        self@.wf()
    }

    /// Create a new game with the default rules, outside any Crawford window.
    pub fn new() -> (r: Self)
        ensures
            r@.wf(),
            r@.rules == default_rules(),
            r@.who_plays == Player::Nobody,
            r@.dices == Dices::unrolled(),
            r@.board.is_start(),
            r@.cube.exponent() == 0 && r@.cube.holder() == Player::Nobody,
            !r@.crawford && !r@.after_crawford && r@.since_crawford == 0,
            !r@.roll_first && !r@.cube_received && r@.offered_by == Player::Nobody,
    {
        Game::for_match(Rules::default(), false, false)
    }

    /// Create a new game with `rules`. `crawford` marks the Crawford game of a match and
    /// `after_crawford` the games after it; the match decides both.
    pub fn for_match(rules: Rules, crawford: bool, after_crawford: bool) -> (r: Self)
        ensures
            r@.wf(),
            r@.rules == rules,
            r@.who_plays == Player::Nobody,
            r@.dices == Dices::unrolled(),
            r@.board.is_start(),
            r@.cube.exponent() == 0 && r@.cube.holder() == Player::Nobody,
            r@.crawford == crawford && r@.after_crawford == after_crawford,
            r@.since_crawford == 0,
            !r@.roll_first && !r@.cube_received && r@.offered_by == Player::Nobody,
    {
        Game {
            rules,
            dices: Dices::default(),
            who_plays: Player::Nobody,
            board: Board::new(),
            cube: Cube::default(),
            crawford,
            after_crawford,
            since_crawford: 0,
            roll_first: false,
            cube_received: false,
            offered_by: Player::Nobody,
        }
    }

    /// Everything the game holds, e.g. to store it.
    pub fn state(&self) -> (r: GameState)
        ensures
            r == self@,
            r.wf(),
    {
        proof {
            use_type_invariant(self);
        }
        GameState {
            rules: self.rules,
            dices: self.dices,
            who_plays: self.who_plays,
            board: self.board,
            cube: self.cube,
            crawford: self.crawford,
            after_crawford: self.after_crawford,
            since_crawford: self.since_crawford,
            roll_first: self.roll_first,
            cube_received: self.cube_received,
            offered_by: self.offered_by,
        }
    }

    /// The game that holds `s`, e.g. a stored game; `None` when no game can be in that state.
    pub fn from_state(s: GameState) -> (r: Option<Game>)
        ensures
            r is Some <==> s.wf(),
            r matches Some(g) ==> g@ == s,
    {
        if !s.is_valid() {
            return None;
        }
        Some(
            Game {
                rules: s.rules,
                dices: s.dices,
                who_plays: s.who_plays,
                board: s.board,
                cube: s.cube,
                crawford: s.crawford,
                after_crawford: s.after_crawford,
                since_crawford: s.since_crawford,
                roll_first: s.roll_first,
                cube_received: s.cube_received,
                offered_by: s.offered_by,
            },
        )
    }

    /// The rules of the game.
    pub fn rules(&self) -> (r: Rules)
        ensures
            r == self@.rules,
    {
        self.rules
    }

    /// The last dice rolled.
    pub fn dices(&self) -> (r: Dices)
        ensures
            r == self@.dices,
    {
        self.dices
    }

    /// Whose turn it is.
    pub fn who_plays(&self) -> (r: Player)
        ensures
            r == self@.who_plays,
    {
        self.who_plays
    }

    /// The board.
    pub fn board(&self) -> (r: Board)
        ensures
            r == self@.board,
    {
        self.board
    }

    /// The board as `Board::get` shows it: per point, player 0's checkers as a positive and
    /// player 1's as a negative amount, then the bar and the off of both.
    pub fn board_display(&self) -> (r: BoardDisplay)
        ensures
            forall|i: int|
                0 <= i < 24 ==> #[trigger] r.board@[i] == self@.board.count(Player::Player0, i)
                    - self@.board.count(Player::Player1, mirror(i)),
            r.bar == self@.board.get_bar_spec(),
            r.off == self@.board.get_off_spec(),
    {
        proof {
            use_type_invariant(self);
            assert forall|i: int| 0 <= i < 24 implies -128 <= #[trigger] self@.board.count(
                Player::Player0,
                i,
            ) - self@.board.count(Player::Player1, mirror(i)) <= 127 by {
                lemma_small_counts(self.board, Player::Player0, i);
                lemma_small_counts(self.board, Player::Player1, mirror(i));
            }
        }
        self.board.get()
    }

    /// The doubling cube.
    pub fn cube(&self) -> (r: Cube)
        ensures
            r == self@.cube,
            r.wf(),
    {
        proof {
            use_type_invariant(self);
        }
        self.cube
    }

    /// The player whose turn it is has to roll before moving.
    pub fn must_roll(&self) -> (r: bool)
        ensures
            r == self@.roll_first,
    {
        self.roll_first
    }

    /// A doubling offer waits for an answer.
    pub fn cube_received(&self) -> (r: bool)
        ensures
            r == self@.cube_received,
    {
        self.cube_received
    }

    /// Completed turns in this game (counted up to 255).
    pub fn since_crawford(&self) -> (r: u8)
        ensures
            r == self@.since_crawford,
    {
        self.since_crawford
    }

    /// Plays a roll of `a` and `b` for `by`.
    ///
    /// Refused while an offer is pending, when it is another player's turn, and while the
    /// player still has moves left. An opening roll (nobody's turn yet) hands the turn to the
    /// higher roller, whose moves these dice then are; on equal values nobody plays yet and,
    /// under the Murphy rule, the cube is doubled.
    pub fn apply_roll(&mut self, by: Player, a: u8, b: u8) -> (r: Result<(), Error>)
        requires
            is_face(a as int),
            is_face(b as int),
        ensures
            final(self)@.wf(),
            old(self)@.roll_error(by) matches Some(e) ==> r == Err::<(), Error>(e) && final(self)@
                == old(self)@,
            old(self)@.roll_error(by) is None ==> r is Ok && old(self)@.rolled_into(
                final(self)@,
                a,
                b,
            ),
    {
        proof {
            use_type_invariant(&*self);
        }
        if self.cube_received {
            return Err(Error::CubeReceived);
        }
        if self.who_plays != Player::Nobody && by != self.who_plays {
            return Err(Error::NotYourTurn);
        }
        if self.who_plays != Player::Nobody && !self.roll_first {
            return Err(Error::MoveFirst);
        }
        self.dices = Dices::from_values(a, b);
        self.roll_first = false;
        if self.who_plays == Player::Nobody {
            if a > b {
                self.who_plays = Player::Player0;
            } else if a < b {
                self.who_plays = Player::Player1;
            } else if self.rules.murphy && self.cube.can_double() {
                self.cube = doubled_cube(self.cube);
            }
        }
        Ok(())
    }

    /// Doubling offer by `by`: returns the doubled stake, which waits for the opponent's
    /// answer. Refused for `Nobody`, while another offer is pending, in the Crawford game, in
    /// the Holland window after it, and when the cube does not allow it.
    pub fn offer(&mut self, by: Player) -> (r: Result<u64, Error>)
        ensures
            final(self)@.wf(),
            old(self)@.offer_error(by) matches Some(e) ==> r == Err::<u64, Error>(e)
                && final(self)@ == old(self)@,
            old(self)@.offer_error(by) is None ==> r == Ok::<u64, Error>(
                (2 * old(self)@.cube.stake()) as u64,
            ) && final(self)@ == (GameState {
                cube_received: true,
                offered_by: by,
                ..old(self)@
            }),
            old(self)@.rules.crawford && old(self)@.crawford ==> r is Err,
    {
        proof {
            use_type_invariant(&*self);
        }
        if by == Player::Nobody {
            return Err(Error::PlayerInvalid);
        }
        if self.cube_received {
            return Err(Error::CubeReceived);
        }
        if (self.rules.crawford && self.crawford) || (self.rules.holland && self.after_crawford
            && self.since_crawford < HOLLAND_TURNS) {
            return Err(Error::DoublingNotPermitted);
        }
        match self.cube.offer(by) {
            Err(e) => Err(e),
            Ok(v) => {
                self.offered_by = by;
                self.cube_received = true;
                Ok(v)
            },
        }
    }

    /// Takes the pending offer: the cube holds the offered value, the accepting player owns it
    /// and has to roll next. Refused when no offer is pending.
    pub fn accept(&mut self) -> (r: Result<(), Error>)
        ensures
            final(self)@.wf(),
            !old(self)@.cube_received ==> r == Err::<(), Error>(Error::DoublingNotPermitted)
                && final(self)@ == old(self)@,
            old(self)@.cube_received ==> {
                let taker = old(self)@.offered_by.opponent();
                &&& r is Ok
                &&& final(self)@.cube.stake() == 2 * old(self)@.cube.stake()
                &&& final(self)@.cube.exponent() == old(self)@.cube.exponent() + 1
                &&& final(self)@.cube.holder() == taker
                &&& final(self)@ == (GameState {
                    cube: final(self)@.cube,
                    cube_received: false,
                    offered_by: Player::Nobody,
                    who_plays: taker,
                    roll_first: true,
                    ..old(self)@
                })
            },
    {
        proof {
            use_type_invariant(&*self);
        }
        if !self.cube_received {
            return Err(Error::DoublingNotPermitted);
        }
        let taker = self.offered_by.other();
        let mut c = doubled_cube(self.cube);
        c.set_owner(taker);
        self.cube_received = false;
        self.cube = c;
        self.offered_by = Player::Nobody;
        self.roll_first = true;
        self.who_plays = taker;
        Ok(())
    }

    /// Refuses the pending offer: the game ends and the offering player wins the stake as it
    /// was before the offer. Returns that player and that stake; the game itself is left as it
    /// is. Refused when no offer is pending.
    pub fn decline(&self) -> (r: Result<(Player, u64), Error>)
        ensures
            !self@.cube_received ==> r == Err::<(Player, u64), Error>(Error::DoublingNotPermitted),
            self@.cube_received ==> r == Ok::<(Player, u64), Error>(
                (self@.offered_by, self@.cube.stake() as u64),
            ),
    {
        proof {
            use_type_invariant(self);
        }
        if !self.cube_received {
            return Err(Error::DoublingNotPermitted);
        }
        Ok((self.offered_by, self.cube.value()))
    }

    /// Uses a move of `dice` and stores `board`; passes the turn when no move is left.
    fn finish_move(&mut self, board: Board, dice: u8)
        requires
            old(self)@.wf(),
            board.side(Player::Player0).total() == CHECKERS,
            board.side(Player::Player1).total() == CHECKERS,
        ensures
            final(self)@ == (GameState { board, ..old(self)@.used(dice) }),
    {
        self.board = board;
        let mut d = self.dices;
        d.consume(dice);
        self.dices = d;
        if d.is_consumed() {
            self.roll_first = true;
            self.who_plays = self.who_plays.other();
            if self.since_crawford < 255 {
                self.since_crawford = self.since_crawford + 1;
            }
        }
    }
}

impl Default for Game {
    fn default() -> (r: Game)
        ensures
            r@.wf(),
            r@.rules == default_rules(),
            r@.who_plays == Player::Nobody,
            r@.board.is_start(),
            r@.cube.exponent() == 0 && r@.cube.holder() == Player::Nobody,
            !r@.roll_first && !r@.cube_received,
    {
        Game::new()
    }
}

impl Roll for Game {
    /// Rolls the dice for `by`, as `apply_roll` plays them.
    fn roll(&mut self, by: Player) -> (r: Result<(), Error>)
        ensures
            final(self)@.wf(),
            old(self)@.roll_error(by) matches Some(e) ==> r == Err::<(), Error>(e) && final(self)@
                == old(self)@,
            old(self)@.roll_error(by) is None ==> {
                &&& r is Ok
                &&& is_face(final(self)@.dices.values.0 as int)
                &&& is_face(final(self)@.dices.values.1 as int)
                &&& old(self)@.rolled_into(
                    final(self)@,
                    final(self)@.dices.values.0,
                    final(self)@.dices.values.1,
                )
            },
    {
        let (a, b) = crate::dices::roll();
        self.apply_roll(by, a, b)
    }
}

impl Move for Game {
    /// Moves a checker of `player` by `dice` points from its point `from`, towards point 0; a
    /// checker that passes point 0 is borne off. All or nothing: on an error the game is left
    /// as it was.
    fn move_checker(&mut self, player: Player, dice: u8, from: usize) -> (r: Result<(), Error>)
        ensures
            final(self)@.wf(),
            old(self)@.move_error(player, dice, from as int) matches Some(e) ==> r == Err::<
                (),
                Error,
            >(e) && final(self)@ == old(self)@,
            old(self)@.move_error(player, dice, from as int) is None ==> {
                &&& r is Ok
                &&& from >= dice ==> old(self)@.board.moved(
                    final(self)@.board,
                    player,
                    from as int,
                    from - dice,
                )
                &&& from < dice ==> old(self)@.board.borne_off(
                    final(self)@.board,
                    player,
                    from as int,
                )
                &&& final(self)@ == (GameState {
                    board: final(self)@.board,
                    ..old(self)@.used(dice)
                })
            },
            old(self)@.permit_error(player, dice) is None && old(self)@.board.side(player).bar > 0
                ==> r == Err::<(), Error>(Error::MoveInvalidBar),
    {
        proof {
            use_type_invariant(&*self);
        }
        match self.move_permitted(player, dice) {
            Err(e) => {
                return Err(e);
            },
            Ok(()) => {},
        }
        let (bar0, bar1) = self.board.get_bar();
        if (player == Player::Player0 && bar0 > 0) || (player == Player::Player1 && bar1 > 0) {
            return Err(Error::MoveInvalidBar);
        }
        if !self.dices.can_use(dice) {
            return Err(Error::MoveInvalid);
        }
        let old_board = self.board;
        let mut next = self.board;
        match next.set(player, from, -1) {
            Err(e) => {
                return Err(e);
            },
            Ok(()) => {},
        }
        let ghost mid = next;
        proof {
            lemma_small_counts(old_board, player, 0);
            lemma_small_counts(old_board, player.opponent(), 0);
        }
        if from < dice as usize {
            let res = next.set_off(player, 1);
            assert(res is Ok);
            proof {
                lemma_sum_update(old_board.side(player).board@, from as int, (old_board.count(player, from as int) - 1) as u8);
            }
        } else {
            let to = from - dice as usize;
            proof {
                lemma_small_counts(old_board, player, to as int);
                lemma_small_counts(old_board, player.opponent(), mirror(to as int));
                assert(mid.count(player, to as int) == old_board.count(player, to as int));
            }
            match next.set(player, to, 1) {
                Err(e) => {
                    return Err(e);
                },
                Ok(()) => {},
            }
            proof {
                let s = old_board.side(player).board@;
                let s1 = s.update(from as int, (s[from as int] - 1) as u8);
                lemma_sum_update(s, from as int, (s[from as int] - 1) as u8);
                lemma_sum_update(s1, to as int, (s[to as int] + 1) as u8);
                let t = old_board.side(player.opponent()).board@;
                lemma_sum_update(t, mirror(to as int), 0);
            }
        }
        self.finish_move(next, dice);
        Ok(())
    }

    /// Enters a checker of `player` from the bar with `dice`, onto its point `24 - dice`. All or
    /// nothing: on an error the game is left as it was.
    fn move_checker_from_bar(&mut self, player: Player, dice: u8) -> (r: Result<(), Error>)
        ensures
            final(self)@.wf(),
            old(self)@.bar_move_error(player, dice) matches Some(e) ==> r == Err::<(), Error>(e)
                && final(self)@ == old(self)@,
            old(self)@.bar_move_error(player, dice) is None ==> {
                &&& r is Ok
                &&& old(self)@.board.entered(final(self)@.board, player, 24 - dice)
                &&& final(self)@.board.side(player).bar == old(self)@.board.side(player).bar - 1
                &&& final(self)@ == (GameState {
                    board: final(self)@.board,
                    ..old(self)@.used(dice)
                })
            },
    {
        proof {
            use_type_invariant(&*self);
        }
        match self.move_permitted(player, dice) {
            Err(e) => {
                return Err(e);
            },
            Ok(()) => {},
        }
        if !self.dices.can_use(dice) {
            return Err(Error::MoveInvalid);
        }
        let old_board = self.board;
        let mut next = self.board;
        match next.set_bar(player, -1) {
            Err(e) => {
                return Err(e);
            },
            Ok(()) => {},
        }
        let to = 24 - dice as usize;
        proof {
            lemma_small_counts(old_board, player, to as int);
            lemma_small_counts(old_board, player.opponent(), mirror(to as int));
        }
        match next.set(player, to, 1) {
            Err(e) => {
                return Err(e);
            },
            Ok(()) => {},
        }
        proof {
            let s = old_board.side(player).board@;
            lemma_sum_update(s, to as int, (s[to as int] + 1) as u8);
            let t = old_board.side(player.opponent()).board@;
            lemma_sum_update(t, mirror(to as int), 0);
        }
        self.finish_move(next, dice);
        Ok(())
    }

    /// Checks that `player` may now move with `dice`: it is the player's turn, no offer is
    /// pending, the dice have been rolled, and `dice` is one of the rolled values.
    fn move_permitted(&self, player: Player, dice: u8) -> (r: Result<(), Error>)
        ensures
            self@.permit_error(player, dice) matches Some(e) ==> r == Err::<(), Error>(e),
            self@.permit_error(player, dice) is None ==> r is Ok,
    {
        if player != self.who_plays {
            return Err(Error::NotYourTurn);
        }
        if self.who_plays == Player::Nobody {
            return Err(Error::RollFirst);
        }
        if self.cube_received {
            return Err(Error::CubeReceived);
        }
        if self.roll_first {
            return Err(Error::RollFirst);
        }
        if dice != self.dices.values.0 && dice != self.dices.values.1 {
            return Err(Error::DiceInvalid);
        }
        Ok(())
    }
}

impl SetRules for Game {
    open spec fn rules_of(self) -> Rules {
        self@.rules
    }

    fn with_points(self, points: u32) -> (r: Self) {
        let mut g = self;
        proof {
            use_type_invariant(&g);
        }
        g.rules = Rules { points, ..g.rules };
        g
    }

    fn with_beaver(self) -> (r: Self) {
        let mut g = self;
        proof {
            use_type_invariant(&g);
        }
        g.rules = Rules { beaver: true, ..g.rules };
        g
    }

    fn with_raccoon(self) -> (r: Self) {
        let mut g = self;
        proof {
            use_type_invariant(&g);
        }
        g.rules = Rules { raccoon: true, ..g.rules };
        g
    }

    fn with_murphy(self, limit: u8) -> (r: Self) {
        let mut g = self;
        proof {
            use_type_invariant(&g);
        }
        g.rules = Rules { murphy: true, murphy_limit: limit, ..g.rules };
        g
    }

    fn with_jacoby(self) -> (r: Self) {
        let mut g = self;
        proof {
            use_type_invariant(&g);
        }
        g.rules = Rules { jacoby: true, ..g.rules };
        g
    }

    fn with_crawford(self) -> (r: Self) {
        let mut g = self;
        proof {
            use_type_invariant(&g);
        }
        g.rules = Rules { crawford: true, ..g.rules };
        g
    }

    fn with_holland(self) -> (r: Self) {
        let mut g = self;
        proof {
            use_type_invariant(&g);
        }
        g.rules = Rules { holland: true, ..g.rules };
        g
    }
}

} // verus!
