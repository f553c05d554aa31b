//! The mathematical model of the board and of the cells a piece covers.
//!
//! Contracts speak of cells with unbounded integer coordinates and of the
//! grid as a sequence of rows, so that they read as plain arithmetic.

use vstd::prelude::*;

verus! {

/// Number of rows of the board.
pub const NUM_ROWS: usize = 16;

/// Number of columns of the board.
pub const NUM_COLS: usize = 10;

/// A position, or an offset, with mathematical integer components.
pub struct Cell {
    pub col: int,
    pub row: int,
}

/// The three-way classification of a candidate set of cells.
#[derive(Debug, PartialEq, Eq, Structural, Clone, Copy)]
pub enum PiecePositionValidity {
    Valid,
    OffOfBoard,
    PieceCollision,
}

/// A cell lies on the board when its row and column are within the grid.
pub open spec fn on_board(c: Cell) -> bool {
    0 <= c.row < NUM_ROWS && 0 <= c.col < NUM_COLS
}

/// Every cell of `cs` lies on the board.
pub open spec fn all_on_board(cs: Seq<Cell>) -> bool {
    forall|i: int| 0 <= i < cs.len() ==> on_board(#[trigger] cs[i])
}

/// The grid has the fixed dimensions of the board.
pub open spec fn grid_wf(grid: Seq<Seq<bool>>) -> bool {
    &&& grid.len() == NUM_ROWS
    &&& forall|r: int| 0 <= r < grid.len() ==> (#[trigger] grid[r]).len() == NUM_COLS
}

/// The grid holds a fixed block at cell `c`.
pub open spec fn occupied(grid: Seq<Seq<bool>>, c: Cell) -> bool {
    grid[c.row][c.col]
}

/// Some cell of `cs` is occupied in the grid.
pub open spec fn any_occupied(grid: Seq<Seq<bool>>, cs: Seq<Cell>) -> bool {
    exists|i: int| 0 <= i < cs.len() && occupied(grid, #[trigger] cs[i])
}

/// Off the board if any cell is out of bounds; else a collision if any cell
/// is occupied; else valid.
pub open spec fn position_validity(grid: Seq<Seq<bool>>, cs: Seq<Cell>) -> PiecePositionValidity {
    if !all_on_board(cs) {
        PiecePositionValidity::OffOfBoard
    } else if any_occupied(grid, cs) {
        PiecePositionValidity::PieceCollision
    } else {
        PiecePositionValidity::Valid
    }
}

/// The cells of `shape`, each moved by `centre`.
pub open spec fn placed(shape: Seq<Cell>, centre: Cell) -> Seq<Cell> {
    Seq::new(
        shape.len(),
        |i: int| Cell { col: shape[i].col + centre.col, row: shape[i].row + centre.row },
    )
}

/// A quarter turn of one offset about the origin: clockwise maps
/// `(col, row)` to `(row, -col)`, anticlockwise to `(-row, col)`.
pub open spec fn rotated_cell(c: Cell, clockwise: bool) -> Cell {
    if clockwise {
        Cell { col: c.row, row: -c.col }
    } else {
        Cell { col: -c.row, row: c.col }
    }
}

/// A quarter turn of every offset of `shape`.
pub open spec fn rotated(shape: Seq<Cell>, clockwise: bool) -> Seq<Cell> {
    Seq::new(shape.len(), |i: int| rotated_cell(shape[i], clockwise))
}

/// The grid with every cell of `cs` marked occupied.
pub open spec fn fixed(grid: Seq<Seq<bool>>, cs: Seq<Cell>) -> Seq<Seq<bool>> {
    Seq::new(
        grid.len(),
        |r: int|
            Seq::new(
                grid[r].len(),
                |c: int| grid[r][c] || cs.contains(Cell { col: c, row: r }),
            ),
    )
}

/// Every cell of the row is occupied.
pub open spec fn row_full(row: Seq<bool>) -> bool {
    forall|c: int| 0 <= c < row.len() ==> #[trigger] row[c]
}

/// A row of the board's width with no cell occupied.
pub open spec fn blank_row() -> Seq<bool> {
    Seq::new(NUM_COLS as nat, |c: int| false)
}

/// The rows of `grid` that are not full, in their order.
pub open spec fn kept_rows(grid: Seq<Seq<bool>>) -> Seq<Seq<bool>> {
    grid.filter(|row: Seq<bool>| !row_full(row))
}

/// The number of full rows of `grid`.
pub open spec fn full_row_count(grid: Seq<Seq<bool>>) -> nat {
    grid.filter(|row: Seq<bool>| row_full(row)).len()
}

/// The grid after a line clear: the rows that are not full keep their order
/// and sit at the bottom, under as many blank rows as full rows were removed.
pub open spec fn cleared(grid: Seq<Seq<bool>>) -> Seq<Seq<bool>> {
    Seq::new(full_row_count(grid), |r: int| blank_row()) + kept_rows(grid)
}

} // verus!
