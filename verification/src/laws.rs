//! What holds of the board and of the pieces, whatever the input.

use vstd::prelude::*;

use crate::geometry::{
    all_on_board, any_occupied, blank_row, cleared, full_row_count, grid_wf, kept_rows, occupied,
    on_board, position_validity, rotated, row_full, Cell, NUM_COLS, NUM_ROWS,
};
use crate::models::{shape_offsets, spawned, MoveCommand, PieceModel, PieceShape, SPAWN_COL, SPAWN_ROW};

verus! {

/// A freshly spawned piece of any shape covers four cells: each offset of
/// the shape moved by the spawn centre, column 4 and row 2. All four lie on
/// the board.
pub proof fn lemma_spawn_coordinates(shape: PieceShape)
    ensures
        spawned(shape).coordinates().len() == 4,
        shape_offsets(shape).len() == 4,
        forall|i: int|
            0 <= i < 4 ==> #[trigger] spawned(shape).coordinates()[i] == (Cell {
                col: shape_offsets(shape)[i].col + 4,
                row: shape_offsets(shape)[i].row + 2,
            }),
        all_on_board(spawned(shape).coordinates()),
{
    assert(SPAWN_COL == 4 && SPAWN_ROW == 2);
    let offsets = shape_offsets(shape);
    let covered = spawned(shape).coordinates();
    assert(offsets.len() == 4);
    assert forall|i: int| 0 <= i < covered.len() implies on_board(#[trigger] covered[i]) by {
        assert(covered[i].col == offsets[i].col + 4);
        assert(-1 <= offsets[i].col <= 2 && 0 <= offsets[i].row <= 1);
    }
}

/// A position with any cell outside the board's bounds is off the board,
/// whatever the board holds.
pub proof fn lemma_off_board_cell_is_rejected(grid: Seq<Seq<bool>>, cs: Seq<Cell>, i: int)
    requires
        0 <= i < cs.len(),
        cs[i].row < 0 || cs[i].row >= 16 || cs[i].col < 0 || cs[i].col >= 10,
    ensures
        position_validity(grid, cs) is OffOfBoard,
{
    assert(!on_board(cs[i]));
}

/// A position within bounds is a collision when one of its cells is
/// occupied, and valid when none is.
pub proof fn lemma_on_board_position(grid: Seq<Seq<bool>>, cs: Seq<Cell>)
    requires
        all_on_board(cs),
    ensures
        (exists|i: int| 0 <= i < cs.len() && grid[cs[i].row][#[trigger] cs[i].col])
            ==> position_validity(grid, cs) is PieceCollision,
        (forall|i: int| 0 <= i < cs.len() ==> !grid[cs[i].row][#[trigger] cs[i].col])
            ==> position_validity(grid, cs) is Valid,
{
    if exists|i: int| 0 <= i < cs.len() && grid[cs[i].row][#[trigger] cs[i].col] {
        let i = choose|i: int| 0 <= i < cs.len() && grid[cs[i].row][#[trigger] cs[i].col];
        assert(occupied(grid, cs[i]));
    }
    if forall|i: int| 0 <= i < cs.len() ==> !grid[cs[i].row][#[trigger] cs[i].col] {
        if any_occupied(grid, cs) {
            let i = choose|i: int| 0 <= i < cs.len() && occupied(grid, #[trigger] cs[i]);
            assert(grid[cs[i].row][cs[i].col]);
        }
    }
}

/// The piece after a whole list of commands, applied in order.
pub open spec fn after_all(
    piece: PieceModel,
    grid: Seq<Seq<bool>>,
    commands: Seq<MoveCommand>,
) -> PieceModel
    decreases commands.len(),
{
    if commands.len() == 0 {
        piece
    } else {
        after_all(piece, grid, commands.drop_last()).after(grid, commands.last())
    }
}

/// One command never takes a piece off the board, nor into an occupied
/// cell: a piece that is on the board stays on it, and a piece in a valid
/// position stays in one.
pub proof fn lemma_command_keeps_piece_on_board(
    piece: PieceModel,
    grid: Seq<Seq<bool>>,
    command: MoveCommand,
)
    ensures
        all_on_board(piece.coordinates()) ==> all_on_board(
            piece.after(grid, command).coordinates(),
        ),
        position_validity(grid, piece.coordinates()) is Valid ==> position_validity(
            grid,
            piece.after(grid, command).coordinates(),
        ) is Valid,
{
}

/// No list of commands takes a piece off the board: after every prefix of
/// the list, every cell of the piece has its column from 0 to 9 and its row
/// from 0 to 15. So a piece told to go right, or left, any number of times
/// stops at the wall.
pub proof fn lemma_commands_keep_piece_on_board(
    piece: PieceModel,
    grid: Seq<Seq<bool>>,
    commands: Seq<MoveCommand>,
)
    requires
        all_on_board(piece.coordinates()),
    ensures
        forall|n: int|
            0 <= n <= commands.len() ==> all_on_board(
                #[trigger] after_all(piece, grid, commands.take(n)).coordinates(),
            ),
        all_on_board(after_all(piece, grid, commands).coordinates()),
    decreases commands.len(),
{
    if commands.len() > 0 {
        let shorter = commands.drop_last();
        lemma_commands_keep_piece_on_board(piece, grid, shorter);
        assert(shorter.take(shorter.len() as int) =~= shorter);
        lemma_command_keeps_piece_on_board(after_all(piece, grid, shorter), grid, commands.last());
        assert forall|n: int| 0 <= n <= commands.len() implies all_on_board(
            #[trigger] after_all(piece, grid, commands.take(n)).coordinates(),
        ) by {
            if n < commands.len() {
                assert(commands.take(n) =~= shorter.take(n));
            } else {
                assert(commands.take(n) =~= commands);
            }
        }
    } else {
        assert forall|n: int| 0 <= n <= commands.len() implies all_on_board(
            #[trigger] after_all(piece, grid, commands.take(n)).coordinates(),
        ) by {
            assert(commands.take(n) =~= commands);
        }
    }
}

/// Filtering keeps a sequence whole when every element passes.
proof fn lemma_filter_keeps_all<A>(s: Seq<A>, pred: spec_fn(A) -> bool)
    requires
        forall|i: int| 0 <= i < s.len() ==> pred(#[trigger] s[i]),
    ensures
        s.filter(pred) == s,
    decreases s.len(),
{
    reveal(Seq::filter);
    if s.len() > 0 {
        lemma_filter_keeps_all(s.drop_last(), pred);
        assert(s.drop_last().push(s.last()) =~= s);
    }
}

/// Two tests of which every element passes exactly one split a sequence in
/// two parts that together are as long as the whole.
proof fn lemma_filter_splits<A>(s: Seq<A>, pred: spec_fn(A) -> bool, other: spec_fn(A) -> bool)
    requires
        forall|x: A| #[trigger] pred(x) != other(x),
    ensures
        s.filter(pred).len() + s.filter(other).len() == s.len(),
    decreases s.len(),
{
    reveal(Seq::filter);
    if s.len() > 0 {
        lemma_filter_splits(s.drop_last(), pred, other);
    }
}

/// Every row of a board is either kept by a line clear or counted as full.
pub proof fn lemma_rows_are_kept_or_full(grid: Seq<Seq<bool>>)
    ensures
        kept_rows(grid).len() + full_row_count(grid) == grid.len(),
{
    lemma_filter_splits(grid, |row: Seq<bool>| !row_full(row), |row: Seq<bool>| row_full(row));
}

/// The rows kept by a line clear are no more than the board has, each of
/// the board's width and none of them full.
proof fn lemma_kept_rows(grid: Seq<Seq<bool>>)
    requires
        grid_wf(grid),
    ensures
        kept_rows(grid).len() <= NUM_ROWS,
        forall|k: int|
            0 <= k < kept_rows(grid).len() ==> (#[trigger] kept_rows(grid)[k]).len() == NUM_COLS
                && !row_full(kept_rows(grid)[k]),
{
    let keep = |row: Seq<bool>| !row_full(row);
    let survivors = kept_rows(grid);
    grid.lemma_filter_len(keep);
    assert forall|k: int| 0 <= k < survivors.len() implies (#[trigger] survivors[k]).len()
        == NUM_COLS && !row_full(survivors[k]) by {
        grid.lemma_filter_pred(keep, k);
        assert(survivors.contains(survivors[k]));
        grid.lemma_filter_contains_rev(keep, survivors[k]);
        let r = choose|r: int| 0 <= r < grid.len() && grid[r] == survivors[k];
        assert(grid[r].len() == NUM_COLS);
    }
}

/// The rows of a cleared board: blank ones above the rows that were kept.
proof fn lemma_cleared_rows(grid: Seq<Seq<bool>>)
    requires
        grid_wf(grid),
    ensures
        0 <= full_row_count(grid) <= NUM_ROWS,
        cleared(grid).len() == NUM_ROWS,
        forall|r: int|
            0 <= r < NUM_ROWS ==> (#[trigger] cleared(grid)[r]).len() == NUM_COLS && !row_full(
                cleared(grid)[r],
            ),
        forall|r: int|
            0 <= r < full_row_count(grid) ==> #[trigger] cleared(grid)[r] == blank_row(),
{
    let survivors = kept_rows(grid);
    let removed = full_row_count(grid);
    let after = cleared(grid);
    lemma_kept_rows(grid);
    lemma_rows_are_kept_or_full(grid);
    assert(blank_row().len() == NUM_COLS);
    assert(!row_full(blank_row())) by {
        assert(!blank_row()[0]);
    }
    assert forall|r: int| 0 <= r < NUM_ROWS implies (#[trigger] after[r]).len() == NUM_COLS
        && !row_full(after[r]) by {
        if r >= removed {
            assert(after[r] == survivors[r - removed]);
        } else {
            assert(after[r] == blank_row());
        }
    }
}

/// A line clear leaves a board without full rows as it is.
proof fn lemma_nothing_to_clear(grid: Seq<Seq<bool>>)
    requires
        forall|r: int| 0 <= r < grid.len() ==> !row_full(#[trigger] grid[r]),
    ensures
        full_row_count(grid) == 0,
        cleared(grid) == grid,
{
    lemma_filter_keeps_all(grid, |row: Seq<bool>| !row_full(row));
    lemma_rows_are_kept_or_full(grid);
    assert(cleared(grid) =~= grid);
}

/// After a line clear the board still has its 16 rows of 10 columns; as
/// many rows at the top as were removed are blank; no row is full; and a
/// second clear removes nothing and leaves the board as it is.
pub proof fn lemma_cleared_board(grid: Seq<Seq<bool>>)
    requires
        grid_wf(grid),
    ensures
        0 <= full_row_count(grid) <= NUM_ROWS,
        grid_wf(cleared(grid)),
        forall|r: int|
            0 <= r < full_row_count(grid) ==> #[trigger] cleared(grid)[r] == blank_row(),
        forall|r: int| 0 <= r < NUM_ROWS ==> !row_full(#[trigger] cleared(grid)[r]),
        full_row_count(cleared(grid)) == 0,
        cleared(cleared(grid)) == cleared(grid),
{
    lemma_cleared_rows(grid);
    lemma_nothing_to_clear(cleared(grid));
}

/// A line clear removes exactly the full rows: as many rows go as are
/// full, every row that is not full is kept, and no full row is.
pub proof fn lemma_full_rows_are_removed(grid: Seq<Seq<bool>>)
    ensures
        kept_rows(grid).len() + full_row_count(grid) == grid.len(),
        forall|k: int| 0 <= k < kept_rows(grid).len() ==> !row_full(#[trigger] kept_rows(grid)[k]),
        forall|r: int|
            0 <= r < grid.len() && !row_full(grid[r]) ==> kept_rows(grid).contains(
                #[trigger] grid[r],
            ),
        forall|r: int| 0 <= r < grid.len() && row_full(#[trigger] grid[r]) ==> !kept_rows(
            grid,
        ).contains(grid[r]),
{
    let keep = |row: Seq<bool>| !row_full(row);
    lemma_rows_are_kept_or_full(grid);
    assert forall|k: int| 0 <= k < kept_rows(grid).len() implies !row_full(
        #[trigger] kept_rows(grid)[k],
    ) by {
        grid.lemma_filter_pred(keep, k);
    }
    assert forall|r: int| 0 <= r < grid.len() && !row_full(grid[r]) implies kept_rows(
        grid,
    ).contains(#[trigger] grid[r]) by {
        grid.lemma_filter_contains(keep, r);
    }
    assert forall|r: int| 0 <= r < grid.len() && row_full(#[trigger] grid[r]) implies !kept_rows(
        grid,
    ).contains(grid[r]) by {
        if kept_rows(grid).contains(grid[r]) {
            let k = choose|k: int| 0 <= k < kept_rows(grid).len() && kept_rows(grid)[k] == grid[r];
            grid.lemma_filter_pred(keep, k);
        }
    }
}

/// A quarter turn one way and then the other way gives the offsets back,
/// and so do four quarter turns the same way.
pub proof fn lemma_turns_restore_shape(shape: Seq<Cell>, clockwise: bool)
    ensures
        rotated(rotated(shape, clockwise), !clockwise) == shape,
        rotated(rotated(rotated(rotated(shape, clockwise), clockwise), clockwise), clockwise)
            == shape,
{
    assert(rotated(rotated(shape, clockwise), !clockwise) =~= shape);
    assert(rotated(rotated(rotated(rotated(shape, clockwise), clockwise), clockwise), clockwise)
        =~= shape);
}

} // verus!
