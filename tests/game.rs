use backgammon::{Error, Game, Move, Player, Roll, Rules, SetRules};

#[test]
fn test_game_rules() {
    let g = Game::new()
        .with_beaver()
        .with_raccoon()
        .with_murphy(3)
        .with_jacoby()
        .with_holland();
    assert!(g.rules().beaver);
    assert!(g.rules().raccoon);
    assert!(g.rules().murphy);
    assert_eq!(g.rules().murphy_limit, 3);
    assert!(g.rules().jacoby);
    assert!(g.rules().holland);
}

#[test]
fn bg_game_roll_test() {
    let mut g = Game::default();
    g.roll(Player::Player1).unwrap();
    let d = g.dices().values;
    assert!(d.0 > 0);
    assert!(d.0 < 7);
    assert!(d.1 > 0);
    assert!(d.1 < 7);
}

#[test]
fn roll_test_fair() {
    let mut sum: u32 = 0;

    for _x in 0..1_000_000 {
        let mut g = Game::default();
        g.roll(Player::Player1).unwrap();
        let d = g.dices().values;
        sum += (d.0 + d.1) as u32;
    }

    let average = (sum as f64) / 2_000_000.;
    assert!(average < 3.51);
    assert!(average > 3.49);
}

#[test]
fn opening_roll_until_unequal() {
    let mut g = Game::new();
    for _x in 0..1000 {
        g.roll(Player::Nobody).unwrap();
        let d = g.dices().values;
        if d.0 == d.1 {
            assert_eq!(g.who_plays(), Player::Nobody);
        } else {
            let higher = if d.0 > d.1 { Player::Player0 } else { Player::Player1 };
            assert_eq!(g.who_plays(), higher);
            assert!(!g.must_roll());
            return;
        }
    }
    panic!("no unequal opening roll in 1000 tries");
}

#[test]
fn equal_opening_roll_keeps_nobody() {
    let mut g = Game::new();
    g.apply_roll(Player::Nobody, 3, 3).unwrap();
    assert_eq!(g.who_plays(), Player::Nobody);
    assert_eq!(g.cube().value(), 1);
    g.apply_roll(Player::Nobody, 2, 4).unwrap();
    assert_eq!(g.who_plays(), Player::Player1);
    assert_eq!(g.dices().values, (2, 4));
}

#[test]
fn murphy_doubles_on_equal_opening_roll() {
    let mut g = Game::new().with_murphy(0);
    g.apply_roll(Player::Nobody, 4, 4).unwrap();
    assert_eq!(g.who_plays(), Player::Nobody);
    assert_eq!(g.cube().value(), 2);
    g.apply_roll(Player::Nobody, 4, 4).unwrap();
    assert_eq!(g.cube().value(), 4);
    g.apply_roll(Player::Nobody, 6, 1).unwrap();
    assert_eq!(g.who_plays(), Player::Player0);
    assert_eq!(g.cube().value(), 4);
    assert_eq!(g.cube().owner(), Player::Nobody);
}

#[test]
fn first_turn_scenario() {
    let mut g = Game::new();
    g.apply_roll(Player::Nobody, 5, 2).unwrap();
    assert_eq!(g.who_plays(), Player::Player0);
    // player 0's point 18 holds five checkers of player 1
    let before = g.board();
    assert_eq!(g.move_checker(Player::Player0, 5, 23), Err(Error::FieldBlocked));
    assert_eq!(g.board(), before);
    g.move_checker(Player::Player0, 2, 23).unwrap();
    assert_eq!(g.board().get().board[23], 1);
    assert_eq!(g.board().get().board[21], 1);
    assert_eq!(g.who_plays(), Player::Player0);
    g.move_checker(Player::Player0, 5, 12).unwrap();
    assert_eq!(g.board().get().board[12], 4);
    assert_eq!(g.board().get().board[7], 4);
    assert!(g.dices().is_consumed());
    assert_eq!(g.who_plays(), Player::Player1);
    assert!(g.must_roll());
    assert_eq!(g.move_checker(Player::Player1, 5, 23), Err(Error::RollFirst));
    assert_eq!(g.since_crawford(), 1);
}

#[test]
fn doubles_give_four_moves() {
    let mut g = Game::new();
    g.apply_roll(Player::Nobody, 4, 1).unwrap();
    g.move_checker(Player::Player0, 4, 12).unwrap();
    g.move_checker(Player::Player0, 1, 8).unwrap();
    assert_eq!(g.who_plays(), Player::Player1);
    g.apply_roll(Player::Player1, 2, 2).unwrap();
    for _i in 0..4 {
        assert_eq!(g.who_plays(), Player::Player1);
        g.move_checker(Player::Player1, 2, 12).unwrap();
    }
    assert_eq!(g.who_plays(), Player::Player0);
    assert_eq!(g.board().get().board[11], -1);
    assert_eq!(g.board().get().board[13], -4);
}

#[test]
fn sequencing_errors() {
    let mut g = Game::new();
    assert_eq!(g.move_checker(Player::Nobody, 1, 5), Err(Error::RollFirst));
    assert_eq!(g.move_checker(Player::Player0, 1, 5), Err(Error::NotYourTurn));
    g.apply_roll(Player::Nobody, 6, 3).unwrap();
    assert_eq!(g.apply_roll(Player::Player1, 1, 2), Err(Error::NotYourTurn));
    assert_eq!(g.apply_roll(Player::Player0, 1, 2), Err(Error::MoveFirst));
    assert_eq!(g.move_checker(Player::Player1, 6, 12), Err(Error::NotYourTurn));
    assert_eq!(g.move_checker(Player::Player0, 4, 12), Err(Error::DiceInvalid));
    assert_eq!(g.move_checker(Player::Player0, 6, 24), Err(Error::FieldInvalid));
    assert_eq!(g.move_checker(Player::Player0, 6, 10), Err(Error::MoveInvalid));
    assert_eq!(g.move_checker_from_bar(Player::Player0, 6), Err(Error::MoveInvalid));
    g.move_checker(Player::Player0, 6, 12).unwrap();
    assert_eq!(g.move_checker(Player::Player0, 6, 12), Err(Error::MoveInvalid));
    g.move_checker(Player::Player0, 3, 12).unwrap();
    assert_eq!(g.who_plays(), Player::Player1);
}

#[test]
fn bearing_off_past_point_zero() {
    let mut g = Game::new();
    g.apply_roll(Player::Nobody, 6, 1).unwrap();
    g.move_checker(Player::Player0, 6, 5).unwrap();
    assert_eq!(g.board().get_off(), (1, 0));
    assert_eq!(g.board().get().board[5], 4);
}

#[test]
fn bar_priority_and_entry() {
    let mut g = Game::new();
    g.apply_roll(Player::Nobody, 2, 1).unwrap();
    g.move_checker(Player::Player0, 2, 7).unwrap();
    g.move_checker(Player::Player0, 1, 7).unwrap();
    // player 0 now has single checkers on its points 7 and 6
    g.apply_roll(Player::Player1, 6, 4).unwrap();
    g.move_checker(Player::Player1, 6, 23).unwrap();
    assert_eq!(g.board().get_bar(), (1, 0));
    assert_eq!(g.board().get().board[6], -1);
    g.move_checker(Player::Player1, 4, 12).unwrap();
    g.apply_roll(Player::Player0, 3, 4).unwrap();
    assert_eq!(g.move_checker(Player::Player0, 3, 12), Err(Error::MoveInvalidBar));
    g.move_checker_from_bar(Player::Player0, 3).unwrap();
    assert_eq!(g.board().get_bar(), (0, 0));
    assert_eq!(g.board().get().board[21], 1);
    g.move_checker(Player::Player0, 4, 12).unwrap();
    assert_eq!(g.who_plays(), Player::Player1);
}

#[test]
fn entry_onto_blocked_point_fails() {
    let mut g = Game::new();
    g.apply_roll(Player::Nobody, 2, 1).unwrap();
    g.move_checker(Player::Player0, 2, 7).unwrap();
    g.move_checker(Player::Player0, 1, 7).unwrap();
    g.apply_roll(Player::Player1, 6, 4).unwrap();
    g.move_checker(Player::Player1, 6, 23).unwrap();
    g.move_checker(Player::Player1, 4, 12).unwrap();
    // entering with a 6 lands on player 0's point 18, where player 1 holds five checkers
    g.apply_roll(Player::Player0, 6, 1).unwrap();
    assert_eq!(g.move_checker_from_bar(Player::Player0, 6), Err(Error::FieldBlocked));
    assert_eq!(g.board().get_bar(), (1, 0));
}

#[test]
fn checkers_are_conserved() {
    let mut g = Game::new();
    let rolls = [(2u8, 1u8), (6, 4), (3, 4), (5, 5), (6, 2)];
    let mut turn = 0;
    for (a, b) in rolls {
        let by = if turn == 0 { Player::Nobody } else { g.who_plays() };
        g.apply_roll(by, a, b).unwrap();
        let p = g.who_plays();
        let dice = if a == b { vec![a; 4] } else { vec![a, b] };
        for d in dice {
            let (bar0, bar1) = g.board().get_bar();
            let on_bar = if p == Player::Player0 { bar0 } else { bar1 };
            if on_bar > 0 {
                let _ = g.move_checker_from_bar(p, d);
            } else {
                for from in (0..24).rev() {
                    if g.move_checker(p, d, from).is_ok() {
                        break;
                    }
                }
            }
            let shown = g.board().get();
            let p0: i32 = shown.board.iter().filter(|c| **c > 0).map(|c| *c as i32).sum();
            let p1: i32 = shown.board.iter().filter(|c| **c < 0).map(|c| -(*c as i32)).sum();
            assert_eq!(p0 + shown.bar.0 as i32 + shown.off.0 as i32, 15);
            assert_eq!(p1 + shown.bar.1 as i32 + shown.off.1 as i32, 15);
        }
        turn += 1;
    }
}

#[test]
fn crawford_game_refuses_doubling() {
    let mut g = Game::for_match(Rules::default(), true, false);
    assert_eq!(g.offer(Player::Player0), Err(Error::DoublingNotPermitted));
    assert_eq!(g.offer(Player::Player1), Err(Error::DoublingNotPermitted));
    g.apply_roll(Player::Nobody, 6, 1).unwrap();
    assert_eq!(g.offer(Player::Player0), Err(Error::DoublingNotPermitted));
    assert!(!g.cube_received());
}

#[test]
fn holland_window_after_crawford() {
    let rules = Rules::default().with_holland();
    let mut g = Game::for_match(rules, false, true);
    assert_eq!(g.offer(Player::Player0), Err(Error::DoublingNotPermitted));
    g.apply_roll(Player::Nobody, 2, 1).unwrap();
    for turn in 0..4u8 {
        assert_eq!(g.since_crawford(), turn);
        assert_eq!(g.offer(Player::Player0), Err(Error::DoublingNotPermitted));
        let p = g.who_plays();
        if turn > 0 {
            g.apply_roll(p, 2, 1).unwrap();
        }
        g.move_checker(p, 2, 12).unwrap();
        g.move_checker(p, 1, 10).unwrap();
    }
    assert_eq!(g.since_crawford(), 4);
    assert_eq!(g.offer(Player::Player0), Ok(2));
}

#[test]
fn doubling_offer_accept_and_redouble() {
    let mut g = Game::new();
    assert_eq!(g.cube().value(), 1);
    assert_eq!(g.cube().owner(), Player::Nobody);
    assert_eq!(g.offer(Player::Nobody), Err(Error::PlayerInvalid));
    assert_eq!(g.accept(), Err(Error::DoublingNotPermitted));
    assert_eq!(g.offer(Player::Player0), Ok(2));
    assert!(g.cube_received());
    assert_eq!(g.offer(Player::Player1), Err(Error::CubeReceived));
    assert_eq!(g.roll(Player::Nobody), Err(Error::CubeReceived));
    assert_eq!(g.cube().value(), 1);
    g.accept().unwrap();
    assert_eq!(g.cube().value(), 2);
    assert_eq!(g.cube().owner(), Player::Player1);
    assert_eq!(g.who_plays(), Player::Player1);
    assert!(g.must_roll());
    assert!(!g.cube_received());
    assert_eq!(g.offer(Player::Player1), Err(Error::DoublingNotPermitted));
    assert_eq!(g.offer(Player::Player0), Ok(4));
}

#[test]
fn decline_gives_game_at_old_stake() {
    let mut g = Game::new();
    assert_eq!(g.decline(), Err(Error::DoublingNotPermitted));
    g.offer(Player::Player1).unwrap();
    assert_eq!(g.decline(), Ok((Player::Player1, 1)));
}

#[test]
fn state_round_trip() {
    let mut g = Game::new();
    g.apply_roll(Player::Nobody, 5, 2).unwrap();
    g.move_checker(Player::Player0, 2, 23).unwrap();
    let s = g.state();
    let back = Game::from_state(s).unwrap();
    assert_eq!(back.state(), s);
    assert_eq!(back.who_plays(), Player::Player0);
    assert_eq!(back.dices().consumed, (false, true, true, true));
}

#[test]
fn from_state_refuses_impossible_states() {
    let g = Game::new();
    let mut s = g.state();
    s.board.set(Player::Player0, 1, 1).unwrap();
    assert!(Game::from_state(s).is_none());

    let mut s = g.state();
    s.dices.values = (7, 1);
    assert!(Game::from_state(s).is_none());

    let mut s = g.state();
    s.who_plays = Player::Player0;
    assert!(Game::from_state(s).is_none());
    s.roll_first = true;
    assert!(Game::from_state(s).is_some());

    let mut s = g.state();
    s.cube_received = true;
    assert!(Game::from_state(s).is_none());
    s.offered_by = Player::Player1;
    assert!(Game::from_state(s).is_some());
}

#[test]
fn board_display_of_game() {
    let mut g = Game::new();
    let shown = g.board_display();
    assert_eq!(shown, g.board().get());
    assert_eq!(shown.board[0], -2);
    assert_eq!(shown.board[23], 2);
    g.apply_roll(Player::Nobody, 6, 1).unwrap();
    g.move_checker(Player::Player0, 6, 5).unwrap();
    assert_eq!(g.board_display().off, (1, 0));
}
