//! Marks, cells, the board and its eight lines.

use vstd::prelude::*;

verus! {

/// Number of cells along one side of the board.
pub const ROW_SIZE: usize = 3;

/// Largest valid coordinate.
pub const MAX_INDEX: usize = ROW_SIZE - 1;

/// The mark of one of the two players; `X` moves first.
#[derive(Debug, Copy, Clone, PartialEq, Eq, Structural)]
pub enum XorZ {
    X,
    Z,
}

/// What a single cell holds.
#[derive(Debug, Copy, Clone, PartialEq, Eq, Structural)]
pub enum CellState {
    Empty,
    Marked(XorZ),
}

/// One of the eight three-in-a-row lines.
///
/// A board is indexed `[x][y]`: the `V*` lines fix `x` (left, middle, right),
/// the `H*` lines fix `y` (top, middle, bottom). `DLeft` runs through
/// `(0, 0), (1, 1), (2, 2)` and `DRight` through `(2, 0), (1, 1), (0, 2)`.
#[derive(Debug, Copy, Clone, PartialEq, Eq, Structural)]
pub enum WinLine {
    DLeft,
    DRight,
    VLeft,
    VMid,
    VRight,
    HTop,
    HMid,
    HBottom,
}

/// How a finished game ended.
#[derive(Debug, Copy, Clone, PartialEq, Eq, Structural)]
pub enum Outcome {
    Draw,
    Win(XorZ, WinLine),
}

/// A cell address `(x, y)`.
pub type CellCoord = (usize, usize);

/// The 3×3 grid of cells, indexed `[x][y]`.
pub type BoardState = [[CellState; ROW_SIZE]; ROW_SIZE];

/// The cell at `(x, y)`.
pub open spec fn cell_at(b: BoardState, x: int, y: int) -> CellState {
    b[x][y]
}

/// Both coordinates name a cell of the board.
pub open spec fn in_bounds(x: int, y: int) -> bool {
    0 <= x <= MAX_INDEX && 0 <= y <= MAX_INDEX
}

/// The `k`-th cell (`k` in `0..3`) of line `wl`, as `(x, y)`.
pub open spec fn line_cell(wl: WinLine, k: int) -> (int, int) {
    match wl {
        WinLine::VLeft => (0, k),
        WinLine::VMid => (1, k),
        WinLine::VRight => (2, k),
        WinLine::HTop => (k, 0),
        WinLine::HMid => (k, 1),
        WinLine::HBottom => (k, 2),
        WinLine::DLeft => (k, k),
        WinLine::DRight => (2 - k, k),
    }
}

/// The cell of `b` at the `k`-th position of `wl`.
pub open spec fn line_at(b: BoardState, wl: WinLine, k: int) -> CellState {
    cell_at(b, line_cell(wl, k).0, line_cell(wl, k).1)
}

/// All three cells of `wl` hold the mark `m`.
pub open spec fn line_owned_by(b: BoardState, wl: WinLine, m: XorZ) -> bool {
    &&& line_at(b, wl, 0) == CellState::Marked(m)
    &&& line_at(b, wl, 1) == CellState::Marked(m)
    &&& line_at(b, wl, 2) == CellState::Marked(m)
}

/// All three cells of `wl` hold the same mark.
pub open spec fn line_complete(b: BoardState, wl: WinLine) -> bool {
    line_owned_by(b, wl, XorZ::X) || line_owned_by(b, wl, XorZ::Z)
}

/// The line that fixes `x`.
pub open spec fn column_line(x: int) -> WinLine {
    if x == 0 {
        WinLine::VLeft
    } else if x == 1 {
        WinLine::VMid
    } else {
        WinLine::VRight
    }
}

/// The line that fixes `y`.
pub open spec fn row_line(y: int) -> WinLine {
    if y == 0 {
        WinLine::HTop
    } else if y == 1 {
        WinLine::HMid
    } else {
        WinLine::HBottom
    }
}

/// The completed line through `(x, y)` that is reported, if any.
///
/// Only lines through `(x, y)` are considered, in this order: the line fixing
/// `x`, the line fixing `y`, `DLeft` (when `x == y`), `DRight` (when
/// `x + y == 2`). The first complete one is the answer.
pub open spec fn winning_line(b: BoardState, x: int, y: int) -> Option<WinLine> {
    if line_complete(b, column_line(x)) {
        Some(column_line(x))
    } else if line_complete(b, row_line(y)) {
        Some(row_line(y))
    } else if x == y && line_complete(b, WinLine::DLeft) {
        Some(WinLine::DLeft)
    } else if x + y == 2 && line_complete(b, WinLine::DRight) {
        Some(WinLine::DRight)
    } else {
        None
    }
}

/// 1 for a marked cell, 0 for an empty one.
pub open spec fn mark_count(c: CellState) -> nat {
    match c {
        CellState::Empty => 0,
        CellState::Marked(_) => 1,
    }
}

/// Number of marked cells on the board.
pub open spec fn marks_on(b: BoardState) -> nat {
    mark_count(cell_at(b, 0, 0)) + mark_count(cell_at(b, 0, 1)) + mark_count(cell_at(b, 0, 2))
        + mark_count(cell_at(b, 1, 0)) + mark_count(cell_at(b, 1, 1))
        + mark_count(cell_at(b, 1, 2)) + mark_count(cell_at(b, 2, 0))
        + mark_count(cell_at(b, 2, 1)) + mark_count(cell_at(b, 2, 2))
}

/// 1 for a cell holding `m`, 0 otherwise.
pub open spec fn mark_count_of(c: CellState, m: XorZ) -> nat {
    match c {
        CellState::Marked(n) => if n == m {
            1
        } else {
            0
        },
        CellState::Empty => 0,
    }
}

/// Number of cells holding `m`.
pub open spec fn marks_of(b: BoardState, m: XorZ) -> nat {
    mark_count_of(cell_at(b, 0, 0), m) + mark_count_of(cell_at(b, 0, 1), m)
        + mark_count_of(cell_at(b, 0, 2), m) + mark_count_of(cell_at(b, 1, 0), m)
        + mark_count_of(cell_at(b, 1, 1), m) + mark_count_of(cell_at(b, 1, 2), m)
        + mark_count_of(cell_at(b, 2, 0), m) + mark_count_of(cell_at(b, 2, 1), m)
        + mark_count_of(cell_at(b, 2, 2), m)
}

/// No line of the board is complete.
pub open spec fn no_line_complete(b: BoardState) -> bool {
    forall|wl: WinLine| !#[trigger] line_complete(b, wl)
}

/// Line `wl` passes through `(x, y)`.
pub open spec fn line_through(wl: WinLine, x: int, y: int) -> bool {
    line_cell(wl, 0) == (x, y) || line_cell(wl, 1) == (x, y) || line_cell(wl, 2) == (x, y)
}

/// Every cell of the board is marked.
pub open spec fn board_full(b: BoardState) -> bool {
    forall|x: int, y: int| #![auto] in_bounds(x, y) ==> cell_at(b, x, y) is Marked
}

/// The mark that moves after `m`.
pub open spec fn other_mark(m: XorZ) -> XorZ {
    match m {
        XorZ::X => XorZ::Z,
        XorZ::Z => XorZ::X,
    }
}

/// `b` with the cell at `(x, y)` replaced by `c`.
#[verifier::opaque]
pub open spec fn board_with(b: BoardState, x: int, y: int, c: CellState) -> BoardState {
    vstd::array::spec_array_update(b, x, vstd::array::spec_array_update(b[x], y, c))
}

/// Writing one cell of a board changes that cell alone.
pub proof fn lemma_board_with(b: BoardState, x: int, y: int, c: CellState)
    requires
        in_bounds(x, y),
    ensures
        forall|i: int, j: int|
            #![trigger cell_at(board_with(b, x, y, c), i, j)]
            in_bounds(i, j) ==> cell_at(board_with(b, x, y, c), i, j) == if i == x && j == y {
                c
            } else {
                cell_at(b, i, j)
            },
{
    reveal(board_with);
}

/// A reported line runs through the cell that was just marked, so it holds
/// three marks of whoever marked that cell.
pub proof fn lemma_reported_line_owned(b: BoardState, x: int, y: int, m: XorZ)
    requires
        in_bounds(x, y),
        cell_at(b, x, y) == CellState::Marked(m),
        winning_line(b, x, y) is Some,
    ensures
        line_owned_by(b, winning_line(b, x, y)->Some_0, m),
{
}

/// A cell counts once in all, and once for the mark it holds.
pub proof fn lemma_cell_counts(c: CellState)
    ensures
        mark_count(c) == mark_count_of(c, XorZ::X) + mark_count_of(c, XorZ::Z),
{
}

/// Marking an empty cell adds one mark to the board.
pub proof fn lemma_board_with_count(b: BoardState, x: int, y: int, c: CellState)
    requires
        in_bounds(x, y),
        cell_at(b, x, y) is Empty,
        c is Marked,
    ensures
        marks_on(board_with(b, x, y, c)) == marks_on(b) + 1,
{
    lemma_board_with(b, x, y, c);
}

/// Marking an empty cell with `m` adds one to the marks of `t` exactly when
/// `t` is `m`.
pub proof fn lemma_board_with_count_of(b: BoardState, x: int, y: int, m: XorZ, t: XorZ)
    requires
        in_bounds(x, y),
        cell_at(b, x, y) is Empty,
    ensures
        marks_of(board_with(b, x, y, CellState::Marked(m)), t) == marks_of(b, t) + if m == t {
            1nat
        } else {
            0nat
        },
{
    lemma_board_with(b, x, y, CellState::Marked(m));
}

/// Marking an empty cell with `m` adds one mark, and it is one of `m`.
pub proof fn lemma_board_with_counts(b: BoardState, x: int, y: int, m: XorZ)
    requires
        in_bounds(x, y),
        cell_at(b, x, y) is Empty,
    ensures
        marks_on(board_with(b, x, y, CellState::Marked(m))) == marks_on(b) + 1,
        marks_of(board_with(b, x, y, CellState::Marked(m)), m) == marks_of(b, m) + 1,
        marks_of(board_with(b, x, y, CellState::Marked(m)), other_mark(m)) == marks_of(
            b,
            other_mark(m),
        ),
{
    lemma_board_with_count(b, x, y, CellState::Marked(m));
    lemma_board_with_count_of(b, x, y, m, m);
    lemma_board_with_count_of(b, x, y, m, other_mark(m));
}

/// Each marked cell holds one of the two marks.
pub proof fn lemma_marks_split(b: BoardState)
    ensures
        marks_on(b) == marks_of(b, XorZ::X) + marks_of(b, XorZ::Z),
{
    lemma_cell_counts(cell_at(b, 0, 0));
    lemma_cell_counts(cell_at(b, 0, 1));
    lemma_cell_counts(cell_at(b, 0, 2));
    lemma_cell_counts(cell_at(b, 1, 0));
    lemma_cell_counts(cell_at(b, 1, 1));
    lemma_cell_counts(cell_at(b, 1, 2));
    lemma_cell_counts(cell_at(b, 2, 0));
    lemma_cell_counts(cell_at(b, 2, 1));
    lemma_cell_counts(cell_at(b, 2, 2));
}

/// A line owned by `m` puts at least three marks of `m` on the board.
pub proof fn lemma_owned_line_count(b: BoardState, wl: WinLine, m: XorZ)
    requires
        line_owned_by(b, wl, m),
    ensures
        marks_of(b, m) >= 3,
{
}

/// The lines through a cell are the two that fix one of its coordinates and
/// the diagonals it lies on.
pub proof fn lemma_lines_through_cell(wl: WinLine, x: int, y: int)
    requires
        in_bounds(x, y),
        line_through(wl, x, y),
    ensures
        wl == column_line(x) || wl == row_line(y) || (x == y && wl == WinLine::DLeft) || (x + y
            == 2 && wl == WinLine::DRight),
{
}

/// A line that misses the written cell is as complete as it was.
pub proof fn lemma_line_elsewhere(b: BoardState, x: int, y: int, c: CellState, wl: WinLine)
    requires
        in_bounds(x, y),
        !line_through(wl, x, y),
    ensures
        line_complete(board_with(b, x, y, c), wl) == line_complete(b, wl),
{
    lemma_board_with(b, x, y, c);
    assert(line_at(board_with(b, x, y, c), wl, 0) == line_at(b, wl, 0));
    assert(line_at(board_with(b, x, y, c), wl, 1) == line_at(b, wl, 1));
    assert(line_at(board_with(b, x, y, c), wl, 2) == line_at(b, wl, 2));
}

/// The three cells hold one and the same mark.
pub fn marked_same(cell1: CellState, cell2: CellState, cell3: CellState) -> (r: bool)
    ensures
        r == (cell1 is Marked && cell1 == cell2 && cell2 == cell3),
{
    cell1 != CellState::Empty && cell1 == cell2 && cell2 == cell3
}

} // verus!
