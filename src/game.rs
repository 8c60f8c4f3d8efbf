//! The game state machine: move validation, placement, outcome detection
//! and turn order.

use vstd::prelude::*;

use crate::board::{
    board_with, cell_at, column_line, in_bounds, line_complete, line_owned_by, marked_same,
    marks_of, marks_on, no_line_complete, other_mark, row_line, winning_line, BoardState,
    CellCoord, CellState, Outcome, WinLine, XorZ, MAX_INDEX, ROW_SIZE,
};
use crate::errors::{MarkError, MarkResult};
use crate::laws::lemma_mark_keeps_wf;

verus! {

/// Number of full rounds: the ninth mark is placed in the fifth.
pub const MAX_TURNS: u8 = 5;

/// Round from which a win is possible.
pub const FIRST_WIN_TURN: u8 = 3;

/// The observable state of a game.
pub struct GameView {
    pub board: BoardState,
    /// The current round, counted from 1; it grows after `Z` has moved.
    pub turn_number: u8,
    /// Whose mark the next move places.
    pub turn_of: XorZ,
    pub outcome: Option<Outcome>,
}

/// A game in progress or finished.
pub struct Game {
    turn_number: u8,
    /// whose turn is it?
    turn_of: XorZ,
    state: BoardState,
    outcome: Option<Outcome>,
}

impl View for Game {
    type V = GameView;

    closed spec fn view(&self) -> GameView {
        GameView {
            board: self.state,
            turn_number: self.turn_number,
            turn_of: self.turn_of,
            outcome: self.outcome,
        }
    }
}

/// The state of a freshly created game.
pub open spec fn initial_view() -> GameView {
    GameView {
        board: [[CellState::Empty; ROW_SIZE]; ROW_SIZE],
        turn_number: 1,
        turn_of: XorZ::X,
        outcome: None,
    }
}

/// How many marks a game in state `g` has placed.
pub open spec fn marks_placed(g: GameView) -> nat {
    let mover_moved: int = if g.turn_of == XorZ::Z {
        1
    } else {
        0
    };
    let last_move: int = if g.outcome is Some {
        1
    } else {
        0
    };
    (2 * (g.turn_number - 1) + mover_moved + last_move) as nat
}

impl GameView {
    /// The state can be reached from a fresh game.
    pub open spec fn wf(self) -> bool {
        &&& 1 <= self.turn_number <= MAX_TURNS
        &&& self.turn_number == MAX_TURNS ==> self.turn_of == XorZ::X
        &&& marks_on(self.board) == marks_placed(self)
        &&& marks_of(self.board, XorZ::X) == marks_of(self.board, XorZ::Z) || marks_of(
            self.board,
            XorZ::X,
        ) == marks_of(self.board, XorZ::Z) + 1
        &&& self.outcome == Some(Outcome::Draw) ==> self.turn_number == MAX_TURNS
        &&& (self.outcome is None || self.outcome == Some(Outcome::Draw)) ==> no_line_complete(
            self.board,
        )
        &&& self.outcome is Some ==> self.turn_number >= FIRST_WIN_TURN
        &&& forall|m: XorZ, wl: WinLine|
            #![auto]
            self.outcome == Some(Outcome::Win(m, wl)) ==> m == self.turn_of && line_owned_by(
                self.board,
                wl,
                m,
            )
    }
}

/// `g` with the turn handed to the other mark; the round grows after `Z`.
pub open spec fn advanced(g: GameView) -> GameView {
    GameView {
        turn_of: other_mark(g.turn_of),
        turn_number: if g.turn_of == XorZ::Z {
            (g.turn_number + 1) as u8
        } else {
            g.turn_number
        },
        ..g
    }
}

/// The outcome once the mover's mark stands at `(x, y)` of `b` in round
/// `turn_number`: none before round 3, else a win on the reported line, else
/// a draw in the last round.
pub open spec fn outcome_after(
    b: BoardState,
    turn_number: u8,
    mover: XorZ,
    x: int,
    y: int,
) -> Option<Outcome> {
    if turn_number < FIRST_WIN_TURN {
        None
    } else {
        match winning_line(b, x, y) {
            Some(wl) => Some(Outcome::Win(mover, wl)),
            None => if turn_number == MAX_TURNS {
                Some(Outcome::Draw)
            } else {
                None
            },
        }
    }
}

/// The state after the mover of `g` places a mark at the empty cell `(x, y)`.
pub open spec fn after_move(g: GameView, x: int, y: int) -> GameView {
    let b = board_with(g.board, x, y, CellState::Marked(g.turn_of));
    let o = outcome_after(b, g.turn_number, g.turn_of, x, y);
    if o is Some {
        GameView { board: b, outcome: o, ..g }
    } else {
        advanced(GameView { board: b, ..g })
    }
}

/// The state and the result of a move at `(x, y)` on `g`.
///
/// Checked in this order: each coordinate is at most 2 (`x` first), the game
/// has not ended, the cell is empty. A rejected move leaves `g` unchanged.
#[verifier::opaque]
pub open spec fn mark_step(g: GameView, x: usize, y: usize) -> (GameView, MarkResult) {
    if x > MAX_INDEX {
        (g, Err(MarkError::OutOfBounds { index: x, max: MAX_INDEX }))
    } else if y > MAX_INDEX {
        (g, Err(MarkError::OutOfBounds { index: y, max: MAX_INDEX }))
    } else if g.outcome is Some {
        (g, Err(MarkError::GameEnded))
    } else if cell_at(g.board, x as int, y as int) is Marked {
        (g, Err(MarkError::CellMarked))
    } else {
        let n = after_move(g, x as int, y as int);
        (n, Ok(n.outcome))
    }
}

impl Game {
    /// Well-formedness of the game.
    pub open spec fn wf(&self) -> bool {
        self@.wf()
    }

    /// Creates a new game with the default starting state.
    pub fn new() -> (r: Self)
        ensures
            r@ == initial_view(),
            r.wf(),
    {
        Game {
            turn_number: 1,
            turn_of: XorZ::X,
            state: [[CellState::Empty; 3]; 3],
            outcome: None,
        }
    }

    /// Places the mover's mark at `(x, y)`, ends the game if that completes a
    /// line or fills the board, and otherwise hands the turn over.
    pub fn mark(&mut self, x: usize, y: usize) -> (r: MarkResult)
        requires
            old(self).wf(),
        ensures
            final(self).wf(),
            (final(self)@, r) == mark_step(old(self)@, x, y),
    {
        proof {
            reveal(mark_step);
            reveal(board_with);
            lemma_mark_keeps_wf(self@, x, y);
        }
        match Self::check_index_bounds(x, y) {
            Ok(()) => {},
            Err(e) => {
                return Err(e);
            },
        }
        if self.outcome.is_some() {
            return Err(MarkError::GameEnded);
        }
        if let CellState::Marked(_) = self.state[x][y] {
            return Err(MarkError::CellMarked);
        }
        self.state[x][y] = CellState::Marked(self.turn_of);
        let outcome = self.check_outcome(x, y);
        if outcome.is_some() {
            return Ok(outcome);
        }
        self.advance_turn();
        Ok(None)
    }

    /// Whose mark the next move places.
    pub fn turn(&self) -> (r: XorZ)
        ensures
            r == self@.turn_of,
    {
        self.turn_of
    }

    /// The current round, counted from 1.
    pub fn turn_number(&self) -> (r: u8)
        ensures
            r == self@.turn_number,
    {
        self.turn_number
    }

    /// A read-only view of the board.
    pub fn board_state(&self) -> (r: &BoardState)
        ensures
            *r == self@.board,
    {
        &self.state
    }

    /// The outcome, once the game has ended.
    pub fn get_outcome(&self) -> (r: Option<Outcome>)
        ensures
            r == self@.outcome,
    {
        self.outcome
    }

    /// The game has an outcome.
    pub fn ended(&self) -> (r: bool)
        ensures
            r == self@.outcome is Some,
    {
        self.outcome.is_some()
    }

    /// The cell `(x, y)` holds a mark; `false` for coordinates off the board.
    pub fn is_marked(&self, x: usize, y: usize) -> (r: bool)
        ensures
            r == (in_bounds(x as int, y as int) && cell_at(self@.board, x as int, y as int)
                is Marked),
    {
        if Self::check_index_bounds(x, y).is_err() {
            false
        } else {
            self.state[x][y] != CellState::Empty
        }
    }

    /// Records the outcome produced by the mark just placed at `(last_x, last_y)`.
    fn check_outcome(&mut self, last_x: usize, last_y: usize) -> (r: Option<Outcome>)
        requires
            in_bounds(last_x as int, last_y as int),
            old(self).outcome is None,
        ensures
            r == outcome_after(
                old(self).state,
                old(self).turn_number,
                old(self).turn_of,
                last_x as int,
                last_y as int,
            ),
            final(self)@ == (GameView { outcome: r, ..old(self)@ }),
    {
        // there cannot be a winner before turn 3
        if self.turn_number < FIRST_WIN_TURN {
            return None;
        }
        if let Some(wl) = self.win_line(last_x, last_y) {
            self.outcome = Some(Outcome::Win(self.turn_of, wl));
            return self.outcome;
        }
        if self.turn_number == MAX_TURNS {
            self.outcome = Some(Outcome::Draw);
            return self.outcome;
        }
        None
    }

    /// The completed line through `(x, y)` to report, by the precedence of
    /// `winning_line`.
    fn win_line(&self, x: usize, y: usize) -> (r: Option<WinLine>)
        requires
            in_bounds(x as int, y as int),
        ensures
            r == winning_line(self.state, x as int, y as int),
    {
        if self.won_v(x, y) {
            if x == 0 {
                Some(WinLine::VLeft)
            } else if x == 1 {
                Some(WinLine::VMid)
            } else {
                Some(WinLine::VRight)
            }
        } else if self.won_h(x, y) {
            if y == 0 {
                Some(WinLine::HTop)
            } else if y == 1 {
                Some(WinLine::HMid)
            } else {
                Some(WinLine::HBottom)
            }
        } else if x == y && self.won_d_left() {
            Some(WinLine::DLeft)
        } else if x + y == MAX_INDEX && self.won_d_right() {
            Some(WinLine::DRight)
        } else {
            None
        }
    }

    /// The line fixing `x` is complete.
    fn won_v(&self, x: usize, y: usize) -> (r: bool)
        requires
            in_bounds(x as int, y as int),
        ensures
            r == line_complete(self.state, column_line(x as int)),
    {
        let cell1 = self.state[x][y];
        let (y2, y3) = Self::other_two_indexes(y);
        let cell2 = self.state[x][y2];
        let cell3 = self.state[x][y3];
        marked_same(cell1, cell2, cell3)
    }

    /// The line fixing `y` is complete.
    fn won_h(&self, x: usize, y: usize) -> (r: bool)
        requires
            in_bounds(x as int, y as int),
        ensures
            r == line_complete(self.state, row_line(y as int)),
    {
        let cell1 = self.state[x][y];
        let (x2, x3) = Self::other_two_indexes(x);
        let cell2 = self.state[x2][y];
        let cell3 = self.state[x3][y];
        marked_same(cell1, cell2, cell3)
    }

    /// Diagonal 0 0, 1 1, 2 2 is complete.
    fn won_d_left(&self) -> (r: bool)
        ensures
            r == line_complete(self.state, WinLine::DLeft),
    {
        marked_same(self.state[0][0], self.state[1][1], self.state[2][2])
    }

    /// Diagonal 2 0, 1 1, 0 2 is complete.
    fn won_d_right(&self) -> (r: bool)
        ensures
            r == line_complete(self.state, WinLine::DRight),
    {
        marked_same(self.state[2][0], self.state[1][1], self.state[0][2])
    }

    /// The two indexes of a line other than `i`, in increasing order.
    fn other_two_indexes(i: usize) -> (r: CellCoord)
        requires
            i <= MAX_INDEX,
        ensures
            r == (if i == 0 {
                (1usize, 2usize)
            } else if i == 1 {
                (0usize, 2usize)
            } else {
                (0usize, 1usize)
            }),
    {
        if i == 0 {
            (1, 2)
        } else if i == 1 {
            (0, 2)
        } else {
            (0, 1)
        }
    }

    /// Hands the turn to the other mark; a new round starts after `Z`.
    fn advance_turn(&mut self)
        requires
            old(self).turn_of == XorZ::Z ==> old(self).turn_number < MAX_TURNS,
        ensures
            final(self)@ == advanced(old(self)@),
    {
        match self.turn_of {
            XorZ::X => self.turn_of = XorZ::Z,
            XorZ::Z => {
                self.turn_of = XorZ::X;
                self.turn_number += 1;
            },
        }
    }

    /// Both coordinates are on the board; else the first one that is not.
    fn check_index_bounds(x: usize, y: usize) -> (r: Result<(), MarkError>)
        ensures
            r == (if x > MAX_INDEX {
                Err(MarkError::OutOfBounds { index: x, max: MAX_INDEX })
            } else if y > MAX_INDEX {
                Err(MarkError::OutOfBounds { index: y, max: MAX_INDEX })
            } else {
                Ok(())
            }),
    {
        if x > MAX_INDEX {
            return Err(MarkError::new_oob(x));
        }
        if y > MAX_INDEX {
            return Err(MarkError::new_oob(y));
        }
        Ok(())
    }
}

impl Default for Game {
    fn default() -> (r: Self)
        ensures
            r@ == initial_view(),
    {
        Self::new()
    }
}

} // verus!
