//! Properties of the game that hold across calls.

use vstd::prelude::*;

use crate::board::{
    board_full, board_with, cell_at, in_bounds, lemma_board_with, lemma_board_with_counts,
    lemma_line_elsewhere, lemma_lines_through_cell, lemma_marks_split, lemma_owned_line_count,
    lemma_reported_line_owned, line_complete, line_owned_by, line_through, marks_of, marks_on,
    no_line_complete, other_mark, winning_line, CellCoord, CellState, Outcome, WinLine, XorZ,
    MAX_INDEX,
};
use crate::errors::MarkError;
use crate::game::{
    advanced, after_move, initial_view, mark_step, marks_placed, outcome_after, Game, GameView,
    FIRST_WIN_TURN, MAX_TURNS,
};

verus! {

/// The state reached from `g` by trying each move of `moves` in order.
pub open spec fn play(g: GameView, moves: Seq<CellCoord>) -> GameView
    decreases moves.len(),
{
    if moves.len() == 0 {
        g
    } else {
        let last = moves.last();
        mark_step(play(g, moves.drop_last()), last.0, last.1).0
    }
}

/// Every move of `moves`, tried in order from `g`, is applied and leaves the
/// game without an outcome.
pub open spec fn all_open_moves(g: GameView, moves: Seq<CellCoord>) -> bool
    decreases moves.len(),
{
    moves.len() > 0 ==> {
        let last = moves.last();
        &&& all_open_moves(g, moves.drop_last())
        &&& mark_step(play(g, moves.drop_last()), last.0, last.1).1 == Ok::<
            Option<Outcome>,
            MarkError,
        >(None)
    }
}

/// A move that reports no line leaves no line complete, as long as none was.
proof fn lemma_no_new_line(g: GameView, x: int, y: int)
    requires
        g.wf(),
        g.outcome is None,
        in_bounds(x, y),
        cell_at(g.board, x, y) is Empty,
        g.turn_number >= FIRST_WIN_TURN,
        winning_line(board_with(g.board, x, y, CellState::Marked(g.turn_of)), x, y) is None,
    ensures
        no_line_complete(board_with(g.board, x, y, CellState::Marked(g.turn_of))),
{
    let b = board_with(g.board, x, y, CellState::Marked(g.turn_of));
    assert forall|wl: WinLine| !#[trigger] line_complete(b, wl) by {
        if line_through(wl, x, y) {
            lemma_lines_through_cell(wl, x, y);
        } else {
            lemma_line_elsewhere(g.board, x, y, CellState::Marked(g.turn_of), wl);
        }
    }
}

/// Before round 3 no player has three marks, so no line is complete.
proof fn lemma_early_no_line(g: GameView, x: int, y: int)
    requires
        g.wf(),
        g.outcome is None,
        in_bounds(x, y),
        cell_at(g.board, x, y) is Empty,
        g.turn_number < FIRST_WIN_TURN,
    ensures
        no_line_complete(board_with(g.board, x, y, CellState::Marked(g.turn_of))),
{
    let b = board_with(g.board, x, y, CellState::Marked(g.turn_of));
    lemma_board_with_counts(g.board, x, y, g.turn_of);
    lemma_marks_split(g.board);
    lemma_marks_split(b);
    assert forall|wl: WinLine| !#[trigger] line_complete(b, wl) by {
        if line_owned_by(b, wl, XorZ::X) {
            lemma_owned_line_count(b, wl, XorZ::X);
        }
        if line_owned_by(b, wl, XorZ::Z) {
            lemma_owned_line_count(b, wl, XorZ::Z);
        }
    }
}

/// Counting argument behind the turn order: `xs + zs` marks were placed in
/// full rounds plus `d`, and `X` is never behind nor more than one ahead.
proof fn lemma_parity_arith(xs: int, zs: int, rounds: int, d: int)
    requires
        xs + zs == 2 * rounds + d,
        d == 0 || d == 1,
        xs == zs || xs == zs + 1,
    ensures
        (d == 0) == (xs == zs),
{
}

/// In an open game `X` is to move exactly when both players have as many
/// marks.
proof fn lemma_mover_parity(g: GameView)
    requires
        g.wf(),
        g.outcome is None,
    ensures
        (g.turn_of == XorZ::X) == (marks_of(g.board, XorZ::X) == marks_of(g.board, XorZ::Z)),
{
    lemma_marks_split(g.board);
    lemma_parity_arith(
        marks_of(g.board, XorZ::X) as int,
        marks_of(g.board, XorZ::Z) as int,
        g.turn_number - 1,
        if g.turn_of == XorZ::Z {
            1int
        } else {
            0
        },
    );
}

/// Placing the mover's mark on an empty cell of an open game keeps the state
/// reachable.
proof fn lemma_after_move_wf(g: GameView, x: int, y: int)
    requires
        g.wf(),
        g.outcome is None,
        in_bounds(x, y),
        cell_at(g.board, x, y) is Empty,
    ensures
        after_move(g, x, y).wf(),
{
    let b = board_with(g.board, x, y, CellState::Marked(g.turn_of));
    let o = outcome_after(b, g.turn_number, g.turn_of, x, y);
    let n = after_move(g, x, y);
    lemma_board_with(g.board, x, y, CellState::Marked(g.turn_of));
    lemma_board_with_counts(g.board, x, y, g.turn_of);
    lemma_marks_split(g.board);
    lemma_marks_split(b);
    lemma_mover_parity(g);
    if g.turn_of == XorZ::X {
        assert(marks_of(b, XorZ::X) == marks_of(b, XorZ::Z) + 1);
    } else {
        assert(marks_of(b, XorZ::X) == marks_of(b, XorZ::Z));
    }
    if g.turn_number < FIRST_WIN_TURN {
        assert(o is None);
        lemma_early_no_line(g, x, y);
        assert(n == advanced(GameView { board: b, ..g }));
    } else if winning_line(b, x, y) is Some {
        let wl = winning_line(b, x, y)->Some_0;
        assert(o == Some(Outcome::Win(g.turn_of, wl)));
        lemma_reported_line_owned(b, x, y, g.turn_of);
        assert(n == GameView { board: b, outcome: o, ..g });
    } else if g.turn_number == MAX_TURNS {
        assert(o == Some(Outcome::Draw));
        lemma_no_new_line(g, x, y);
        assert(n == GameView { board: b, outcome: o, ..g });
    } else {
        assert(o is None);
        lemma_no_new_line(g, x, y);
        assert(n == advanced(GameView { board: b, ..g }));
    }
}

/// A move keeps a reachable state reachable.
pub proof fn lemma_mark_keeps_wf(g: GameView, x: usize, y: usize)
    requires
        g.wf(),
    ensures
        mark_step(g, x, y).0.wf(),
{
    reveal(mark_step);
    if x <= MAX_INDEX && y <= MAX_INDEX && g.outcome is None && cell_at(
        g.board,
        x as int,
        y as int,
    ) is Empty {
        lemma_after_move_wf(g, x as int, y as int);
    }
}

/// An applied move that does not end the game hands the turn over.
proof fn lemma_open_move(g: GameView, x: usize, y: usize)
    requires
        g.wf(),
        mark_step(g, x, y).1 == Ok::<Option<Outcome>, MarkError>(None),
    ensures
        mark_step(g, x, y).0.wf(),
        mark_step(g, x, y).0.turn_of == other_mark(g.turn_of),
        mark_step(g, x, y).0.turn_number == if g.turn_of == XorZ::Z {
            g.turn_number + 1
        } else {
            g.turn_number as int
        },
{
    reveal(mark_step);
    lemma_mark_keeps_wf(g, x, y);
}

/// A move with a coordinate above 2 is rejected as out of bounds, naming the
/// first such coordinate, and changes nothing.
pub proof fn lemma_out_of_bounds_rejected(g: Game, x: usize, y: usize)
    requires
        x > MAX_INDEX || y > MAX_INDEX,
    ensures
        mark_step(g@, x, y).0 == g@,
        mark_step(g@, x, y).1 == Err::<Option<Outcome>, MarkError>(
            MarkError::OutOfBounds { index: if x > MAX_INDEX { x } else { y }, max: MAX_INDEX },
        ),
{
    reveal(mark_step);
}

/// Once a game has an outcome, every move on the board is rejected with
/// `GameEnded` and changes nothing.
pub proof fn lemma_ended_game_frozen(g: Game, x: usize, y: usize)
    requires
        g@.outcome is Some,
        x <= MAX_INDEX,
        y <= MAX_INDEX,
    ensures
        mark_step(g@, x, y).0 == g@,
        mark_step(g@, x, y).1 == Err::<Option<Outcome>, MarkError>(
            MarkError::GameEnded,
        ),
{
    reveal(mark_step);
}

/// In a game without an outcome, a move onto a marked cell is rejected with
/// `CellMarked` and changes nothing.
pub proof fn lemma_marked_cell_rejected(g: Game, x: usize, y: usize)
    requires
        g@.outcome is None,
        x <= MAX_INDEX,
        y <= MAX_INDEX,
        cell_at(g@.board, x as int, y as int) is Marked,
    ensures
        mark_step(g@, x, y).0 == g@,
        mark_step(g@, x, y).1 == Err::<Option<Outcome>, MarkError>(
            MarkError::CellMarked,
        ),
{
    reveal(mark_step);
}

/// A fresh game is reachable.
proof fn lemma_initial_wf()
    ensures
        initial_view().wf(),
{
}

/// How parity and halving change from `k` to `k + 1`.
proof fn lemma_next_count(k: int)
    requires
        k >= 0,
    ensures
        (k % 2 == 0) ==> ((k + 1) % 2 == 1 && (k + 1) / 2 == k / 2),
        (k % 2 == 1) ==> ((k + 1) % 2 == 0 && (k + 1) / 2 == k / 2 + 1),
{
}

/// After `k` applied moves from a fresh game, none of which ended it, `X` is
/// to move exactly when `k` is even, and the round is `1 + k / 2`.
pub proof fn lemma_turn_parity(moves: Seq<CellCoord>)
    requires
        all_open_moves(initial_view(), moves),
    ensures
        play(initial_view(), moves).turn_of == (if moves.len() % 2 == 0 {
            XorZ::X
        } else {
            XorZ::Z
        }),
        play(initial_view(), moves).turn_number == 1 + moves.len() / 2,
        play(initial_view(), moves).wf(),
    decreases moves.len(),
{
    if moves.len() == 0 {
        lemma_initial_wf();
    } else {
        let prefix = moves.drop_last();
        lemma_turn_parity(prefix);
        lemma_next_count(prefix.len() as int);
        lemma_open_move(play(initial_view(), prefix), moves.last().0, moves.last().1);
    }
}

/// In a reachable state the number of marks on the board tells whose turn it
/// is and the round, as long as the game is open.
pub proof fn lemma_marks_give_turn(g: Game)
    requires
        g.wf(),
        g@.outcome is None,
    ensures
        g@.turn_of == (if marks_on(g@.board) % 2 == 0 {
            XorZ::X
        } else {
            XorZ::Z
        }),
        g@.turn_number == 1 + marks_on(g@.board) / 2,
{
}

/// An outcome agrees with the board: a draw comes only on a full board
/// without a complete line, a win names a line that holds three marks of the
/// winner, no game ends before round 3, and an open game has no complete
/// line.
pub proof fn lemma_outcome_matches_board(g: Game)
    requires
        g.wf(),
    ensures
        g@.outcome == Some(Outcome::Draw) ==> board_full(g@.board) && no_line_complete(g@.board),
        g@.outcome is None ==> no_line_complete(g@.board),
        forall|m: XorZ, wl: WinLine|
            #![auto]
            g@.outcome == Some(Outcome::Win(m, wl)) ==> line_owned_by(
                g@.board,
                wl,
                m,
            ),
        g@.outcome is Some ==> g@.turn_number >= FIRST_WIN_TURN,
{
}

} // verus!
