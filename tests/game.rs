use lib_tac_toe::CellState::{Empty, Marked};
use lib_tac_toe::Outcome::{Draw, Win};
use lib_tac_toe::WinLine::{DLeft, DRight, HMid, HTop, VLeft, VMid};
use lib_tac_toe::XorZ::{X, Z};
use lib_tac_toe::{CellCoord, Game, MarkError, MarkResult, Outcome, WinLine, XorZ};

fn game_with_markings(m: &[CellCoord]) -> Game {
    let mut g = Game::new();

    for (x, y) in m {
        g.mark(*x, *y).unwrap();
    }

    g
}

fn horizontal_game_start() -> Game {
    game_with_markings(&[(0, 0), (0, 1), (1, 0), (1, 1)])
}

fn vertical_game_start() -> Game {
    game_with_markings(&[(0, 0), (1, 0), (0, 1), (1, 1)])
}

fn assert_winner(r: MarkResult, xz: XorZ, line: WinLine) {
    assert_outcome(r, Win(xz, line));
}

fn assert_outcome(r: MarkResult, o: Outcome) {
    match r.unwrap().unwrap() {
        outcome if outcome == o => (),
        _ => panic!("{:?} should have been the outcome!", o),
    }
}

fn assert_turn(g: &Game, number: u8, of: XorZ) {
    assert_eq!(g.turn_number(), number);
    assert_eq!(g.turn(), of);
}

#[test]
fn marking_out_of_bounds() {
    let mut g = Game::new();

    let cases = [(0, 3), (3, 0)];

    for (x, y) in &cases {
        assert!(g.mark(*x, *y).is_err());
    }
}

#[test]
fn marking_marked() {
    let mut g = Game::new();

    assert!(g.mark(0, 0).is_ok());
    assert!(g.mark(0, 0).is_err());
}

#[test]
fn horizontal_win() {
    // as X
    let mut g = horizontal_game_start();

    assert_winner(g.mark(2, 0), X, HTop);

    // as 0
    g = horizontal_game_start();

    g.mark(0, 2).unwrap();

    assert_winner(g.mark(2, 1), Z, HMid);
}

#[test]
fn vertical_win() {
    // as X
    let mut g = vertical_game_start();

    assert_winner(g.mark(0, 2), X, VLeft);

    // as 0
    g = vertical_game_start();

    g.mark(2, 0).unwrap();

    assert_winner(g.mark(1, 2), Z, VMid);
}

#[test]
fn left_diagonal_win() {
    let mut g = game_with_markings(&[(0, 0), (0, 1), (1, 1), (0, 2)]);

    assert_winner(g.mark(2, 2), X, DLeft);

    g = game_with_markings(&[(1, 0), (0, 0), (1, 2), (1, 1), (0, 1)]);

    assert_winner(g.mark(2, 2), Z, DLeft);
}

#[test]
fn righ_diagonal_win() {
    let mut g = game_with_markings(&[(2, 0), (0, 0), (1, 1), (0, 1)]);

    assert_winner(g.mark(0, 2), X, DRight);

    g = game_with_markings(&[(0, 0), (2, 0), (1, 0), (1, 1), (0, 1)]);

    assert_winner(g.mark(0, 2), Z, DRight);
}

#[test]
fn marking_finished() {
    let mut g = game_with_markings(&[(0, 0), (1, 0), (0, 1), (1, 1), (0, 2)]);

    assert!(g.mark(2, 2).is_err());
}

#[test]
fn draw() {
    let mut g = game_with_markings(&[
        (0, 0),
        (1, 1),
        (0, 1),
        (0, 2),
        (2, 0),
        (1, 0),
        (1, 2),
        (2, 2),
    ]);

    assert_outcome(g.mark(2, 1), Draw);
}

#[test]
fn turns() {
    let mut g = Game::new();

    assert_turn(&g, 1, X);

    g.mark(0, 0).unwrap();

    assert_turn(&g, 1, Z);

    g.mark(1, 1).unwrap();

    assert_turn(&g, 2, X);

    g.mark(0, 1).unwrap();

    assert_turn(&g, 2, Z);

    g.mark(0, 2).unwrap();

    assert_turn(&g, 3, X);

    g.mark(2, 0).unwrap();

    assert_turn(&g, 3, Z);

    g.mark(1, 0).unwrap();

    assert_turn(&g, 4, X);

    g.mark(1, 2).unwrap();

    assert_turn(&g, 4, Z);

    g.mark(2, 2).unwrap();

    assert_turn(&g, 5, X);

    assert_outcome(g.mark(2, 1), Draw);

    // last move should not change the turn because
    // there are no more turns after it
    assert_turn(&g, 5, X);
}

#[test]
fn ended() {
    let mut g = horizontal_game_start();

    assert!(!g.ended());

    g.mark(2, 0).unwrap();

    assert!(g.ended());
}

#[test]
fn marked_cells() {
    let mut g = Game::new();

    // out of bounds
    assert!(!g.is_marked(3, 3));

    for x in 0..3 {
        for y in 0..3 {
            assert!(!g.is_marked(x, y));
        }
    }

    g.mark(0, 0).unwrap();

    assert!(g.is_marked(0, 0));
}

#[test]
fn new_game_starts_empty() {
    let g = Game::new();
    assert_eq!(*g.board_state(), [[Empty; 3]; 3]);
    assert_eq!(g.turn(), X);
    assert_eq!(g.turn_number(), 1);
    assert_eq!(g.get_outcome(), None);
    assert!(!g.ended());
    let d = Game::default();
    assert_eq!(*d.board_state(), [[Empty; 3]; 3]);
    assert_eq!(d.turn(), X);
}

#[test]
fn out_of_bounds_names_first_bad_coordinate() {
    let mut g = Game::new();
    assert_eq!(g.mark(3, 0), Err(MarkError::OutOfBounds { index: 3, max: 2 }));
    assert_eq!(g.mark(0, 7), Err(MarkError::OutOfBounds { index: 7, max: 2 }));
    assert_eq!(g.mark(9, 4), Err(MarkError::OutOfBounds { index: 9, max: 2 }));
    assert_eq!(
        g.mark(usize::MAX, 0),
        Err(MarkError::OutOfBounds { index: usize::MAX, max: 2 })
    );
    assert_eq!(*g.board_state(), [[Empty; 3]; 3]);
    assert_eq!(g.turn(), X);
    assert_eq!(g.get_outcome(), None);
}

#[test]
fn out_of_bounds_checked_before_game_end() {
    let mut g = game_with_markings(&[(0, 0), (1, 0), (0, 1), (1, 1), (0, 2)]);
    assert_eq!(g.mark(5, 1), Err(MarkError::OutOfBounds { index: 5, max: 2 }));
    assert_eq!(g.get_outcome(), Some(Win(X, VLeft)));
}

#[test]
fn moves_after_end_leave_game_unchanged() {
    let mut g = game_with_markings(&[(0, 0), (1, 0), (0, 1), (1, 1), (0, 2)]);
    let board = *g.board_state();
    let outcome = g.get_outcome();
    for x in 0..3 {
        for y in 0..3 {
            assert_eq!(g.mark(x, y), Err(MarkError::GameEnded));
        }
    }
    assert_eq!(*g.board_state(), board);
    assert_eq!(g.get_outcome(), outcome);
    assert_eq!(g.turn(), X);
    assert_eq!(g.turn_number(), 3);
}

#[test]
fn marked_cell_rejected_without_change() {
    let mut g = game_with_markings(&[(1, 1), (0, 0)]);
    let board = *g.board_state();
    assert_eq!(g.mark(1, 1), Err(MarkError::CellMarked));
    assert_eq!(g.mark(0, 0), Err(MarkError::CellMarked));
    assert_eq!(*g.board_state(), board);
    assert_eq!(g.turn(), X);
    assert_eq!(g.turn_number(), 2);
    assert_eq!(board[1][1], Marked(X));
    assert_eq!(board[0][0], Marked(Z));
}

#[test]
fn turn_follows_number_of_moves() {
    let moves = [(0, 0), (1, 1), (0, 1), (0, 2), (2, 0), (1, 0), (1, 2), (2, 2)];
    let mut g = Game::new();
    for (k, (x, y)) in moves.iter().enumerate() {
        assert_eq!(g.mark(*x, *y), Ok(None));
        let done = k + 1;
        let expected = if done % 2 == 0 { X } else { Z };
        assert_eq!(g.turn(), expected);
        assert_eq!(g.turn_number() as usize, 1 + done / 2);
    }
}

#[test]
fn draw_only_on_ninth_move() {
    let moves = [(0, 0), (1, 1), (0, 1), (0, 2), (2, 0), (1, 0), (1, 2), (2, 2), (2, 1)];
    let mut g = Game::new();
    for (k, (x, y)) in moves.iter().enumerate() {
        let r = g.mark(*x, *y);
        if k < 8 {
            assert_eq!(r, Ok(None));
        } else {
            assert_eq!(r, Ok(Some(Draw)));
        }
    }
    assert_eq!(g.get_outcome(), Some(Draw));
    for x in 0..3 {
        for y in 0..3 {
            assert!(g.is_marked(x, y));
        }
    }
}

#[test]
fn win_on_fifth_move() {
    let mut g = Game::new();
    assert_eq!(g.mark(0, 0), Ok(None));
    assert_eq!(g.mark(0, 1), Ok(None));
    assert_eq!(g.mark(1, 0), Ok(None));
    assert_eq!(g.mark(1, 1), Ok(None));
    assert_eq!(g.mark(2, 0), Ok(Some(Win(X, HTop))));
    assert_eq!(g.get_outcome(), Some(Win(X, HTop)));
}

#[test]
fn queries_repeat_their_answer() {
    let mut g = horizontal_game_start();
    assert_eq!(*g.board_state(), *g.board_state());
    assert_eq!(g.get_outcome(), g.get_outcome());
    g.mark(2, 0).unwrap();
    let first = *g.board_state();
    let second = *g.board_state();
    assert_eq!(first, second);
    assert_eq!(g.get_outcome(), Some(Win(X, HTop)));
    assert_eq!(g.get_outcome(), Some(Win(X, HTop)));
}

#[test]
fn empty_diagonal_is_no_win() {
    let mut g = game_with_markings(&[(0, 1), (1, 0), (0, 2), (2, 1)]);
    assert_eq!(g.mark(1, 2), Ok(None));
    assert_eq!(g.get_outcome(), None);
}

#[test]
fn no_outcome_before_round_three() {
    let mut g = Game::new();
    assert_eq!(g.mark(0, 0), Ok(None));
    assert_eq!(g.mark(2, 2), Ok(None));
    assert_eq!(g.mark(0, 1), Ok(None));
    assert_eq!(g.mark(2, 1), Ok(None));
    assert_eq!(g.turn_number(), 3);
}

#[test]
fn column_reported_before_row() {
    let mut g = game_with_markings(&[(0, 1), (1, 1), (0, 2), (1, 2), (1, 0), (2, 1), (2, 0), (2, 2)]);
    assert_eq!(g.turn_number(), 5);
    assert_eq!(g.mark(0, 0), Ok(Some(Win(X, VLeft))));
    assert_eq!(g.turn(), X);
}

#[test]
fn win_marks_stay_on_board() {
    let mut g = horizontal_game_start();
    g.mark(2, 0).unwrap();
    let b = *g.board_state();
    assert_eq!(b[0][0], Marked(X));
    assert_eq!(b[1][0], Marked(X));
    assert_eq!(b[2][0], Marked(X));
    assert_eq!(b[2][2], Empty);
}

#[test]
fn new_oob_uses_largest_index() {
    assert_eq!(MarkError::new_oob(4), MarkError::OutOfBounds { index: 4, max: 2 });
}
