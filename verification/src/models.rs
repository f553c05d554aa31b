//! The board, the pieces and the commands that move them.

use rand::seq::IteratorRandom;
use vstd::pervasive::unreached;
use vstd::prelude::*;

pub use crate::geometry::PiecePositionValidity;
use crate::laws::lemma_rows_are_kept_or_full;
use crate::geometry::{
    all_on_board, any_occupied, blank_row, cleared, fixed, full_row_count, grid_wf, kept_rows, occupied,
    on_board, placed, position_validity, rotated, rotated_cell, row_full, Cell, NUM_COLS,
    NUM_ROWS,
};

verus! {

/// A column and a row. Offsets of a shape may be negative.
#[derive(PartialEq, Eq, Structural, Debug, Clone, Copy)]
pub struct Coord {
    pub col: i16,
    pub row: i16,
}

impl View for Coord {
    type V = Cell;

    open spec fn view(&self) -> Cell {
        Cell { col: self.col as int, row: self.row as int }
    }
}

/// The cells that a list of coordinates stands for.
pub open spec fn cells(coords: Seq<Coord>) -> Seq<Cell> {
    Seq::new(coords.len(), |i: int| coords[i]@)
}

/// The occupancy grid: `board[row][col]` is true where a block is fixed.
pub struct TetrisBoard {
    pub board: Vec<Vec<bool>>,
}

impl View for TetrisBoard {
    type V = Seq<Seq<bool>>;

    open spec fn view(&self) -> Seq<Seq<bool>> {
        Seq::new(self.board@.len(), |r: int| self.board@[r]@)
    }
}

impl TetrisBoard {
    pub const NUM_ROWS: usize = 16;

    pub const NUM_COLS: usize = 10;

    /// The board has its fixed dimensions: 16 rows of 10 columns.
    pub open spec fn wf(&self) -> bool {
        grid_wf(self@)
    }

    /// Whether the board has its fixed dimensions.
    pub fn is_well_formed(&self) -> (ok: bool)
        ensures
            ok == self.wf(),
    {
        if self.board.len() != NUM_ROWS {
            return false;
        }
        let mut r: usize = 0;
        while r < NUM_ROWS
            invariant
                r <= NUM_ROWS,
                self.board@.len() == NUM_ROWS,
                forall|i: int| 0 <= i < r ==> (#[trigger] self@[i]).len() == NUM_COLS,
            decreases NUM_ROWS - r,
        {
            if self.board[r].len() != NUM_COLS {
                assert(self@[r as int].len() != NUM_COLS);
                return false;
            }
            r += 1;
        }
        true
    }

    /// An empty board.
    pub fn new() -> (board: Self)
        ensures
            board.wf(),
            board@ == Seq::new(NUM_ROWS as nat, |r: int| blank_row()),
            forall|r: int, c: int|
                0 <= r < NUM_ROWS && 0 <= c < NUM_COLS ==> !(#[trigger] board@[r][c]),
    {
        let mut rows: Vec<Vec<bool>> = Vec::new();
        let mut r: usize = 0;
        while r < NUM_ROWS
            invariant
                r <= NUM_ROWS,
                rows@.len() == r,
                forall|i: int| 0 <= i < r ==> (#[trigger] rows@[i])@.len() == NUM_COLS,
                forall|i: int, c: int| 0 <= i < r && 0 <= c < NUM_COLS ==> !(#[trigger] rows@[i]@[c]),
            decreases NUM_ROWS - r,
        {
            let mut row: Vec<bool> = Vec::new();
            let mut c: usize = 0;
            while c < NUM_COLS
                invariant
                    c <= NUM_COLS,
                    row@.len() == c,
                    forall|j: int| 0 <= j < c ==> !(#[trigger] row@[j]),
                decreases NUM_COLS - c,
            {
                row.push(false);
                c += 1;
            }
            rows.push(row);
            r += 1;
        }
        let board = TetrisBoard { board: rows };
        proof {
            assert forall|r: int| 0 <= r < NUM_ROWS implies #[trigger] board@[r] =~= blank_row() by {
                assert(board@[r] == rows@[r]@);
            }
            assert(board@ =~= Seq::new(NUM_ROWS as nat, |r: int| blank_row()));
        }
        board
    }

    /// Whether every coordinate lies within the board's bounds.
    pub fn check_coordinates_on_board(&self, coordinates: &Vec<Coord>) -> (inside: bool)
        ensures
            inside == all_on_board(cells(coordinates@)),
    {
        let mut i: usize = 0;
        while i < coordinates.len()
            invariant
                i <= coordinates@.len(),
                forall|j: int| 0 <= j < i ==> on_board(#[trigger] cells(coordinates@)[j]),
            decreases coordinates@.len() - i,
        {
            let coord = coordinates[i];
            if coord.row < 0 || coord.row >= 16 || coord.col < 0 || coord.col >= 10 {
                assert(!on_board(cells(coordinates@)[i as int]));
                return false;
            }
            i += 1;
        }
        true
    }

    /// Classifies a candidate position: off the board if any coordinate is out
    /// of bounds; otherwise a collision if any coordinate is on an occupied
    /// cell; otherwise valid.
    pub fn check_is_valid_position(&self, coordinates: &Vec<Coord>) -> (validity:
        PiecePositionValidity)
        requires
            self.wf(),
        ensures
            validity == position_validity(self@, cells(coordinates@)),
            validity is OffOfBoard <==> !all_on_board(cells(coordinates@)),
            validity is PieceCollision <==> all_on_board(cells(coordinates@)) && any_occupied(
                self@,
                cells(coordinates@),
            ),
            validity is Valid <==> all_on_board(cells(coordinates@)) && !any_occupied(
                self@,
                cells(coordinates@),
            ),
    {
        if !self.check_coordinates_on_board(coordinates) {
            return PiecePositionValidity::OffOfBoard;
        }
        let mut i: usize = 0;
        while i < coordinates.len()
            invariant
                i <= coordinates@.len(),
                self.wf(),
                all_on_board(cells(coordinates@)),
                forall|j: int| 0 <= j < i ==> !occupied(self@, #[trigger] cells(coordinates@)[j]),
            decreases coordinates@.len() - i,
        {
            let coord = coordinates[i];
            assert(on_board(cells(coordinates@)[i as int]));
            assert(self@[coord.row as int] == self.board@[coord.row as int]@);
            if self.board[coord.row as usize][coord.col as usize] {
                assert(occupied(self@, cells(coordinates@)[i as int]));
                return PiecePositionValidity::PieceCollision;
            }
            i += 1;
        }
        PiecePositionValidity::Valid
    }

    /// Writes every cell of the piece into the board as occupied. The piece
    /// ceases to exist as a live piece.
    pub fn fix_piece_in_place(&mut self, piece: TetrisPiece)
        requires
            old(self).wf(),
            fits(piece.shape@, piece.centre),
            all_on_board(piece@.coordinates()),
        ensures
            final(self).wf(),
            final(self)@ == fixed(old(self)@, piece@.coordinates()),
    {
        let coordinates = piece.coordinates();
        let ghost covered = cells(coordinates@);
        let ghost start = self@;
        let mut i: usize = 0;
        while i < coordinates.len()
            invariant
                i <= coordinates@.len(),
                covered == cells(coordinates@),
                all_on_board(covered),
                grid_wf(start),
                self.wf(),
                forall|r: int, c: int|
                    0 <= r < NUM_ROWS && 0 <= c < NUM_COLS ==> #[trigger] self@[r][c] == (
                    start[r][c] || covered.take(i as int).contains(Cell { col: c, row: r })),
            decreases coordinates@.len() - i,
        {
            let coord = coordinates[i];
            let ghost before = self@;
            let ghost target = covered[i as int];
            assert(on_board(target));
            let row = coord.row as usize;
            let col = coord.col as usize;
            assert(before[row as int] == self.board@[row as int]@);
            let mut cells_of_row = self.board[row].clone();
            assert(cells_of_row@ == before[row as int]);
            cells_of_row.set(col, true);
            self.board.set(row, cells_of_row);
            proof {
                let now = covered.take(i as int + 1);
                let earlier = covered.take(i as int);
                assert(now =~= earlier.push(target));
                assert forall|r: int| 0 <= r < NUM_ROWS implies (#[trigger] self@[r]).len()
                    == NUM_COLS by {
                    if r != row {
                        assert(self@[r] == before[r]);
                    }
                }
                assert forall|r: int, c: int|
                    0 <= r < NUM_ROWS && 0 <= c < NUM_COLS implies #[trigger] self@[r][c] == (
                start[r][c] || now.contains(Cell { col: c, row: r })) by {
                    let cell = Cell { col: c, row: r };
                    assert(before[r][c] == (start[r][c] || earlier.contains(cell)));
                    if r != row {
                        assert(self@[r] == before[r]);
                    }
                    assert(self@[r][c] == (before[r][c] || cell == target));
                    if earlier.contains(cell) {
                        let k = choose|k: int| 0 <= k < earlier.len() && earlier[k] == cell;
                        assert(now[k] == cell);
                    }
                    if cell == target {
                        assert(now[i as int] == cell);
                    }
                    if now.contains(cell) {
                        let k = choose|k: int| 0 <= k < now.len() && now[k] == cell;
                        if k < i {
                            assert(earlier[k] == cell);
                        }
                    }
                }
            }
            i += 1;
        }
        proof {
            assert(covered.take(coordinates@.len() as int) =~= covered);
            let goal = fixed(start, covered);
            assert forall|r: int| 0 <= r < NUM_ROWS implies #[trigger] self@[r] =~= goal[r] by {
                assert(self@[r].len() == NUM_COLS);
                assert(start[r].len() == NUM_COLS);
                assert forall|c: int| 0 <= c < NUM_COLS implies self@[r][c] == goal[r][c] by {
                    assert(self@[r][c] == (start[r][c] || covered.contains(Cell { col: c, row: r })));
                }
            }
            assert(self@ =~= goal);
        }
    }

    /// Whether every cell of the row is occupied.
    pub fn is_row_full(row: &Vec<bool>) -> (full: bool)
        ensures
            full == row_full(row@),
    {
        let mut c: usize = 0;
        while c < row.len()
            invariant
                c <= row@.len(),
                forall|j: int| 0 <= j < c ==> #[trigger] row@[j],
            decreases row@.len() - c,
        {
            if !row[c] {
                return false;
            }
            c += 1;
        }
        true
    }

    /// Removes every full row. The rows that remain keep their order and end
    /// up at the bottom; blank rows fill the top. Returns how many rows were
    /// removed.
    pub fn clear_rows(&mut self) -> (removed: u16)
        requires
            old(self).wf(),
        ensures
            final(self).wf(),
            removed == full_row_count(old(self)@),
            0 <= removed <= NUM_ROWS,
            final(self)@ == cleared(old(self)@),
    {
        let ghost grid = self@;
        let mut kept: Vec<Vec<bool>> = Vec::new();
        let mut r: usize = 0;
        while r < NUM_ROWS
            invariant
                r <= NUM_ROWS,
                self.wf(),
                self@ == grid,
                kept@.len() <= r,
                Seq::new(kept@.len(), |k: int| kept@[k]@) =~= kept_rows(grid.take(r as int)),
            decreases NUM_ROWS - r,
        {
            proof {
                let upto = grid.take(r as int + 1);
                assert(upto.drop_last() =~= grid.take(r as int));
                assert(upto.last() == grid[r as int]);
                reveal(Seq::filter);
            }
            assert(self@[r as int] == self.board@[r as int]@);
            if !Self::is_row_full(&self.board[r]) {
                let row = self.board[r].clone();
                assert(row@ == grid[r as int]);
                kept.push(row);
            }
            r += 1;
        }
        assert(grid.take(NUM_ROWS as int) =~= grid);
        proof {
            lemma_rows_are_kept_or_full(grid);
        }
        let num_cleared_rows: usize = NUM_ROWS - kept.len();
        let ghost survivors = kept_rows(grid);
        proof {
            grid.lemma_filter_len(|row: Seq<bool>| !row_full(row));
            assert forall|k: int| 0 <= k < survivors.len() implies (#[trigger] survivors[k]).len()
                == NUM_COLS by {
                grid.lemma_filter_contains_rev(|row: Seq<bool>| !row_full(row), survivors[k]);
            }
        }
        let mut rows: Vec<Vec<bool>> = Vec::new();
        let mut b: usize = 0;
        while b < num_cleared_rows
            invariant
                b <= num_cleared_rows <= NUM_ROWS,
                rows@.len() == b,
                forall|k: int| 0 <= k < b ==> (#[trigger] rows@[k])@ =~= blank_row(),
            decreases num_cleared_rows - b,
        {
            let mut row: Vec<bool> = Vec::new();
            let mut c: usize = 0;
            while c < NUM_COLS
                invariant
                    c <= NUM_COLS,
                    row@.len() == c,
                    forall|j: int| 0 <= j < c ==> !(#[trigger] row@[j]),
                decreases NUM_COLS - c,
            {
                row.push(false);
                c += 1;
            }
            rows.push(row);
            b += 1;
        }
        let mut k: usize = 0;
        while k < kept.len()
            invariant
                k <= kept@.len(),
                num_cleared_rows + kept@.len() == NUM_ROWS,
                rows@.len() == num_cleared_rows + k,
                forall|j: int|
                    0 <= j < num_cleared_rows ==> (#[trigger] rows@[j])@
                        =~= blank_row(),
                forall|j: int| 0 <= j < k ==> (#[trigger] rows@[num_cleared_rows + j])@ == kept@[j]@,
            decreases kept@.len() - k,
        {
            let row = kept[k].clone();
            rows.push(row);
            k += 1;
        }
        self.board = rows;
        proof {
            assert(survivors.len() == kept@.len());
            assert forall|j: int| 0 <= j < NUM_ROWS implies #[trigger] self@[j] == cleared(grid)[j] by {
                if j >= num_cleared_rows {
                    assert(self@[j] == rows@[num_cleared_rows + (j - num_cleared_rows)]@);
                    assert(survivors[j - num_cleared_rows] == kept@[j - num_cleared_rows]@);
                }
            }
            assert(self@ =~= cleared(grid));
        }
        num_cleared_rows as u16
    }
}

/// The seven shapes a piece can have.
#[derive(Debug, PartialEq, Eq, Structural, Clone, Copy)]
pub enum PieceShape {
    Square,
    Bar,
    Z,
    FlippedZ,
    L,
    FlippedL,
    T,
}

/// The four offsets of each shape, relative to the piece's centre.
pub open spec fn shape_offsets(shape: PieceShape) -> Seq<Cell> {
    match shape {
        PieceShape::Square => seq![
            Cell { col: 0, row: 0 },
            Cell { col: 0, row: 1 },
            Cell { col: 1, row: 1 },
            Cell { col: 1, row: 0 },
        ],
        PieceShape::Bar => seq![
            Cell { col: -1, row: 0 },
            Cell { col: 0, row: 0 },
            Cell { col: 1, row: 0 },
            Cell { col: 2, row: 0 },
        ],
        PieceShape::Z => seq![
            Cell { col: -1, row: 0 },
            Cell { col: 0, row: 0 },
            Cell { col: 0, row: 1 },
            Cell { col: 1, row: 1 },
        ],
        PieceShape::FlippedZ => seq![
            Cell { col: -1, row: 1 },
            Cell { col: 0, row: 0 },
            Cell { col: 0, row: 1 },
            Cell { col: 1, row: 0 },
        ],
        PieceShape::L => seq![
            Cell { col: -1, row: 1 },
            Cell { col: 0, row: 1 },
            Cell { col: 1, row: 1 },
            Cell { col: 1, row: 0 },
        ],
        PieceShape::FlippedL => seq![
            Cell { col: -1, row: 0 },
            Cell { col: -1, row: 1 },
            Cell { col: 0, row: 1 },
            Cell { col: 1, row: 1 },
        ],
        PieceShape::T => seq![
            Cell { col: -1, row: 1 },
            Cell { col: 0, row: 1 },
            Cell { col: 0, row: 0 },
            Cell { col: 1, row: 1 },
        ],
    }
}

/// All shapes, in their fixed order.
pub open spec fn all_shapes() -> Seq<PieceShape> {
    seq![
        PieceShape::Square,
        PieceShape::Bar,
        PieceShape::Z,
        PieceShape::FlippedZ,
        PieceShape::L,
        PieceShape::FlippedL,
        PieceShape::T,
    ]
}

/// Picks one number below `bound` with the thread's random generator, by
/// `rand::seq::IteratorRandom::choose` on the range from 0 to `bound`. That
/// method hands out an element of what it iterates over, and nothing exactly
/// when there is no element; which element is left open. The generator is
/// seeded by the system and panics where the system cannot do that; no
/// argument makes a difference to it.
#[verifier::external_body]
fn choose_index(bound: usize) -> (picked: Option<usize>)
    ensures
        picked is None <==> bound == 0,
        picked matches Some(index) ==> index < bound,
{
    (0..bound).choose(&mut rand::thread_rng())
}

impl PieceShape {
    /// The shape at the given place in the fixed order.
    pub fn from_index(index: usize) -> (shape: Option<PieceShape>)
        ensures
            shape is Some <==> index < all_shapes().len(),
            shape matches Some(found) ==> found == all_shapes()[index as int],
    {
        match index {
            0 => Some(PieceShape::Square),
            1 => Some(PieceShape::Bar),
            2 => Some(PieceShape::Z),
            3 => Some(PieceShape::FlippedZ),
            4 => Some(PieceShape::L),
            5 => Some(PieceShape::FlippedL),
            6 => Some(PieceShape::T),
            _ => None,
        }
    }

    /// One of the seven shapes, chosen at random.
    pub fn random() -> (shape: PieceShape)
        ensures
            all_shapes().contains(shape),
    {
        match choose_index(7) {
            Some(index) => match Self::from_index(index) {
                Some(shape) => {
                    assert(all_shapes()[index as int] == shape);
                    shape
                },
                None => unreached(),
            },
            None => unreached(),
        }
    }

    /// The shape's four offsets.
    pub fn shape(&self) -> (offsets: Vec<Coord>)
        ensures
            cells(offsets@) == shape_offsets(*self),
    {
        let offsets = match *self {
            PieceShape::Square => vec![
                Coord { col: 0, row: 0 },
                Coord { col: 0, row: 1 },
                Coord { col: 1, row: 1 },
                Coord { col: 1, row: 0 },
            ],
            PieceShape::Bar => vec![
                Coord { col: -1, row: 0 },
                Coord { col: 0, row: 0 },
                Coord { col: 1, row: 0 },
                Coord { col: 2, row: 0 },
            ],
            PieceShape::Z => vec![
                Coord { col: -1, row: 0 },
                Coord { col: 0, row: 0 },
                Coord { col: 0, row: 1 },
                Coord { col: 1, row: 1 },
            ],
            PieceShape::FlippedZ => vec![
                Coord { col: -1, row: 1 },
                Coord { col: 0, row: 0 },
                Coord { col: 0, row: 1 },
                Coord { col: 1, row: 0 },
            ],
            PieceShape::L => vec![
                Coord { col: -1, row: 1 },
                Coord { col: 0, row: 1 },
                Coord { col: 1, row: 1 },
                Coord { col: 1, row: 0 },
            ],
            PieceShape::FlippedL => vec![
                Coord { col: -1, row: 0 },
                Coord { col: -1, row: 1 },
                Coord { col: 0, row: 1 },
                Coord { col: 1, row: 1 },
            ],
            PieceShape::T => vec![
                Coord { col: -1, row: 1 },
                Coord { col: 0, row: 1 },
                Coord { col: 0, row: 0 },
                Coord { col: 1, row: 1 },
            ],
        };
        assert(cells(offsets@) =~= shape_offsets(*self));
        offsets
    }

    /// Every shape once, in the fixed order.
    pub fn iterator() -> (shapes: Vec<PieceShape>)
        ensures
            shapes@ == all_shapes(),
    {
        let shapes = vec![
            PieceShape::Square,
            PieceShape::Bar,
            PieceShape::Z,
            PieceShape::FlippedZ,
            PieceShape::L,
            PieceShape::FlippedL,
            PieceShape::T,
        ];
        assert(shapes@ =~= all_shapes());
        shapes
    }
}

/// What a piece can be told to do.
#[derive(Debug, PartialEq, Eq, Structural, Clone, Copy)]
pub enum MoveCommand {
    Left,
    Down,
    Right,
    Clockwise,
    Anticlockwise,
}

/// Raised when a `Down` command ends the turn before the timer does.
#[derive(Debug, PartialEq, Eq, Structural, Clone, Copy)]
pub enum TurnEvent {
    EndTurn,
}

/// Largest magnitude of a shape offset's component.
pub const MAX_OFFSET: i16 = 8192;

/// Largest magnitude of a centre's component.
pub const MAX_CENTRE: i16 = 16384;

/// The column and the row where a new piece's centre is put.
pub const SPAWN_COL: i16 = 4;

pub const SPAWN_ROW: i16 = 2;

/// The components of `c` are at most `limit` in magnitude.
pub open spec fn within(c: Coord, limit: int) -> bool {
    -limit <= c.col <= limit && -limit <= c.row <= limit
}

/// Every offset of `shape` has components of at most `limit` in magnitude.
pub open spec fn all_within(shape: Seq<Coord>, limit: int) -> bool {
    forall|i: int| 0 <= i < shape.len() ==> within(#[trigger] shape[i], limit)
}

/// Both components of `c` have a negative that an `i16` holds.
pub open spec fn has_negative(c: Coord) -> bool {
    c.col > i16::MIN && c.row > i16::MIN
}

/// Every offset of `shape` can be turned: each component has its negative.
pub open spec fn turnable(shape: Seq<Coord>) -> bool {
    forall|i: int| 0 <= i < shape.len() ==> has_negative(#[trigger] shape[i])
}

/// Every offset of `shape`, moved by `centre`, has components that an `i16` holds.
pub open spec fn fits(shape: Seq<Coord>, centre: Coord) -> bool {
    forall|i: int|
        0 <= i < shape.len() ==> {
            &&& i16::MIN <= (#[trigger] shape[i]).col + centre.col <= i16::MAX
            &&& i16::MIN <= shape[i].row + centre.row <= i16::MAX
        }
}

/// A piece as the contracts see it: its offsets and its centre.
pub struct PieceModel {
    pub shape: Seq<Cell>,
    pub centre: Cell,
}

impl PieceModel {
    /// The cells the piece covers on the board.
    pub open spec fn coordinates(self) -> Seq<Cell> {
        placed(self.shape, self.centre)
    }

    /// The piece one column to the side: `by` is -1 for left, 1 for right.
    pub open spec fn shifted(self, by: int) -> PieceModel {
        PieceModel { shape: self.shape, centre: Cell { col: self.centre.col + by, row: self.centre.row } }
    }

    /// The piece one row lower.
    pub open spec fn lowered(self) -> PieceModel {
        PieceModel { shape: self.shape, centre: Cell { col: self.centre.col, row: self.centre.row + 1 } }
    }

    /// The piece with its offsets turned a quarter about the centre.
    pub open spec fn turned(self, clockwise: bool) -> PieceModel {
        PieceModel { shape: rotated(self.shape, clockwise), centre: self.centre }
    }

    /// Where `command` would put the piece if nothing were in the way.
    /// `Down` does not move the piece.
    pub open spec fn candidate(self, command: MoveCommand) -> PieceModel {
        match command {
            MoveCommand::Left => self.shifted(-1),
            MoveCommand::Right => self.shifted(1),
            MoveCommand::Down => self,
            MoveCommand::Clockwise => self.turned(true),
            MoveCommand::Anticlockwise => self.turned(false),
        }
    }

    /// The piece after `command` on `grid`: the candidate where it is valid,
    /// the piece unchanged where it is not.
    pub open spec fn after(self, grid: Seq<Seq<bool>>, command: MoveCommand) -> PieceModel {
        if position_validity(grid, self.candidate(command).coordinates()) is Valid {
            self.candidate(command)
        } else {
            self
        }
    }
}

/// A freshly spawned piece of the given shape.
pub open spec fn spawned(shape: PieceShape) -> PieceModel {
    PieceModel {
        shape: shape_offsets(shape),
        centre: Cell { col: SPAWN_COL as int, row: SPAWN_ROW as int },
    }
}

/// A live piece: the offsets of its shape and the centre they are anchored at.
pub struct TetrisPiece {
    pub shape: Vec<Coord>,
    pub centre: Coord,
}

impl View for TetrisPiece {
    type V = PieceModel;

    open spec fn view(&self) -> PieceModel {
        PieceModel { shape: cells(self.shape@), centre: self.centre@ }
    }
}

impl TetrisPiece {
    /// The piece has four offsets, and offsets and centre are far enough from
    /// the ends of `i16` for every candidate position to be computed.
    pub open spec fn wf(&self) -> bool {
        &&& self.shape@.len() == 4
        &&& all_within(self.shape@, MAX_OFFSET as int)
        &&& within(self.centre, MAX_CENTRE as int)
    }

    /// Whether the piece has four offsets, with offsets and centre within
    /// their limits.
    pub fn is_well_formed(&self) -> (ok: bool)
        ensures
            ok == self.wf(),
    {
        if self.shape.len() != 4 {
            return false;
        }
        let mut i: usize = 0;
        while i < 4
            invariant
                i <= 4,
                self.shape@.len() == 4,
                forall|j: int| 0 <= j < i ==> within(#[trigger] self.shape@[j], MAX_OFFSET as int),
            decreases 4 - i,
        {
            let offset = self.shape[i];
            if offset.col < -MAX_OFFSET || offset.col > MAX_OFFSET || offset.row < -MAX_OFFSET
                || offset.row > MAX_OFFSET {
                assert(!within(self.shape@[i as int], MAX_OFFSET as int));
                return false;
            }
            i += 1;
        }
        -MAX_CENTRE <= self.centre.col && self.centre.col <= MAX_CENTRE && -MAX_CENTRE
            <= self.centre.row && self.centre.row <= MAX_CENTRE
    }

    /// A piece of the given shape at the spawn centre.
    pub fn new(piece_shape: &PieceShape) -> (piece: Self)
        ensures
            piece.wf(),
            piece@ == spawned(*piece_shape),
    {
        let shape = piece_shape.shape();
        proof {
            assert(shape@.len() == cells(shape@).len());
            assert forall|i: int| 0 <= i < shape@.len() implies within(
                #[trigger] shape@[i],
                MAX_OFFSET as int,
            ) by {
                assert(cells(shape@)[i] == shape_offsets(*piece_shape)[i]);
            }
        }
        Self { shape, centre: Coord { col: SPAWN_COL, row: SPAWN_ROW } }
    }

    /// The cells the piece covers: each offset moved by the centre.
    pub fn coordinates(&self) -> (coordinates: Vec<Coord>)
        requires
            fits(self.shape@, self.centre),
        ensures
            cells(coordinates@) == self@.coordinates(),
    {
        self.calc_coordinates_with_centre(None)
    }

    /// The cells the piece would cover with its centre at `new_centre`, or at
    /// its own centre where none is given.
    pub fn calc_coordinates_with_centre(&self, new_centre: Option<&Coord>) -> (coordinates: Vec<
        Coord,
    >)
        requires
            match new_centre {
                Some(centre) => fits(self.shape@, *centre),
                None => fits(self.shape@, self.centre),
            },
        ensures
            cells(coordinates@) == placed(
                cells(self.shape@),
                match new_centre {
                    Some(centre) => centre@,
                    None => self.centre@,
                },
            ),
    {
        let centre = match new_centre {
            None => self.centre,
            Some(centre) => *centre,
        };
        let mut coordinates: Vec<Coord> = Vec::with_capacity(self.shape.len());
        let mut i: usize = 0;
        while i < self.shape.len()
            invariant
                i <= self.shape@.len(),
                fits(self.shape@, centre),
                coordinates@.len() == i,
                forall|j: int|
                    0 <= j < i ==> (#[trigger] coordinates@[j])@ == placed(
                        cells(self.shape@),
                        centre@,
                    )[j],
            decreases self.shape@.len() - i,
        {
            let offset = self.shape[i];
            coordinates.push(Coord { col: offset.col + centre.col, row: offset.row + centre.row });
            i += 1;
        }
        assert(cells(coordinates@) =~= placed(cells(self.shape@), centre@));
        coordinates
    }

    /// The piece's offsets after a quarter turn. Only `Clockwise` and
    /// `Anticlockwise` name a turn; any other command is refused. A turn
    /// keeps every bound on the offsets.
    pub fn calc_rotated_shape(&self, direction: MoveCommand) -> (turned: Result<Vec<Coord>, ()>)
        requires
            turnable(self.shape@),
        ensures
            turned is Ok <==> (direction is Clockwise || direction is Anticlockwise),
            turned matches Ok(offsets) ==> {
                &&& cells(offsets@) == rotated(cells(self.shape@), direction is Clockwise)
                &&& offsets@.len() == self.shape@.len()
                &&& turnable(offsets@)
                &&& forall|limit: int|
                    #[trigger] all_within(self.shape@, limit) ==> all_within(offsets@, limit)
            },
    {
        let clockwise = match direction {
            MoveCommand::Clockwise => true,
            MoveCommand::Anticlockwise => false,
            _ => {
                return Err(());
            },
        };
        let mut new_coords: Vec<Coord> = Vec::new();
        let mut i: usize = 0;
        while i < self.shape.len()
            invariant
                i <= self.shape@.len(),
                turnable(self.shape@),
                new_coords@.len() == i,
                forall|j: int|
                    0 <= j < i ==> (#[trigger] new_coords@[j])@ == rotated_cell(
                        self.shape@[j]@,
                        clockwise,
                    ),
            decreases self.shape@.len() - i,
        {
            let coord = self.shape[i];
            assert(has_negative(self.shape@[i as int]));
            let turned = if clockwise {
                Coord { col: coord.row, row: -coord.col }
            } else {
                Coord { col: -coord.row, row: coord.col }
            };
            new_coords.push(turned);
            i += 1;
        }
        proof {
            assert(cells(new_coords@) =~= rotated(cells(self.shape@), clockwise));
            assert forall|j: int| 0 <= j < new_coords@.len() implies has_negative(
                #[trigger] new_coords@[j],
            ) by {
                assert(has_negative(self.shape@[j]));
                assert(new_coords@[j]@ == rotated_cell(self.shape@[j]@, clockwise));
            }
            assert forall|limit: int| #[trigger]
                all_within(self.shape@, limit) implies all_within(new_coords@, limit) by {
                assert forall|j: int| 0 <= j < new_coords@.len() implies within(
                    #[trigger] new_coords@[j],
                    limit,
                ) by {
                    assert(within(self.shape@[j], limit));
                    assert(new_coords@[j]@ == rotated_cell(self.shape@[j]@, clockwise));
                }
            }
        }
        Ok(new_coords)
    }

    /// Applies a command to the piece. `Left` and `Right` move the centre by
    /// one column and the two turns replace the offsets, each only where the
    /// resulting position is valid on the board; otherwise the piece is left
    /// as it was. `Down` does not move the piece: it ends the turn.
    pub fn move_peice(&mut self, board: &TetrisBoard, direction: MoveCommand) -> (event: Option<
        TurnEvent,
    >)
        requires
            old(self).wf(),
            board.wf(),
        ensures
            final(self).wf(),
            final(self)@ == old(self)@.after(board@, direction),
            all_on_board(old(self)@.coordinates()) ==> all_on_board(final(self)@.coordinates()),
            position_validity(board@, old(self)@.coordinates()) is Valid ==> position_validity(
                board@,
                final(self)@.coordinates(),
            ) is Valid,
            event == (if direction is Down {
                Some(TurnEvent::EndTurn)
            } else {
                None
            }),
    {
        match direction {
            MoveCommand::Right => {
                let new_centre = Coord { col: self.centre.col + 1, row: self.centre.row };
                let new_coordinates = self.calc_coordinates_with_centre(Some(&new_centre));
                if let PiecePositionValidity::Valid = board.check_is_valid_position(
                    &new_coordinates,
                ) {
                    proof {
                        assert(on_board(cells(new_coordinates@)[0]));
                        assert(within(self.shape@[0], MAX_OFFSET as int));
                    }
                    self.centre = new_centre;
                }
                None
            },
            MoveCommand::Left => {
                let new_centre = Coord { col: self.centre.col - 1, row: self.centre.row };
                let new_coordinates = self.calc_coordinates_with_centre(Some(&new_centre));
                if let PiecePositionValidity::Valid = board.check_is_valid_position(
                    &new_coordinates,
                ) {
                    proof {
                        assert(on_board(cells(new_coordinates@)[0]));
                        assert(within(self.shape@[0], MAX_OFFSET as int));
                    }
                    self.centre = new_centre;
                }
                None
            },
            MoveCommand::Down => {
                Some(TurnEvent::EndTurn)
            },
            MoveCommand::Clockwise => {
                if let Ok(new_shape) = self.calc_rotated_shape(MoveCommand::Clockwise) {
                    let turned = TetrisPiece { shape: new_shape, centre: self.centre };
                    let new_coordinates = turned.coordinates();
                    if let PiecePositionValidity::Valid = board.check_is_valid_position(
                        &new_coordinates,
                    ) {
                        self.shape = turned.shape;
                    }
                }
                None
            },
            MoveCommand::Anticlockwise => {
                if let Ok(new_shape) = self.calc_rotated_shape(MoveCommand::Anticlockwise) {
                    let turned = TetrisPiece { shape: new_shape, centre: self.centre };
                    let new_coordinates = turned.coordinates();
                    if let PiecePositionValidity::Valid = board.check_is_valid_position(
                        &new_coordinates,
                    ) {
                        self.shape = turned.shape;
                    }
                }
                None
            },
        }
    }

    /// One step of gravity. Where the position one row lower is valid, the
    /// piece comes back with its centre one row lower and the board is left
    /// as it was. Otherwise the piece is fixed into the board where it
    /// stands, and nothing comes back.
    pub fn move_down(self, board: &mut TetrisBoard) -> (moved: Option<Self>)
        requires
            self.wf(),
            old(board).wf(),
            position_validity(old(board)@, self@.lowered().coordinates()) is Valid || all_on_board(
                self@.coordinates(),
            ),
        ensures
            final(board).wf(),
            position_validity(old(board)@, self@.lowered().coordinates()) is Valid ==> {
                &&& moved matches Some(piece)
                &&& piece.wf()
                &&& piece@ == self@.lowered()
                &&& final(board)@ == old(board)@
            },
            !(position_validity(old(board)@, self@.lowered().coordinates()) is Valid) ==> {
                &&& moved is None
                &&& final(board)@ == fixed(old(board)@, self@.coordinates())
            },
    {
        let new_centre = Coord { col: self.centre.col, row: self.centre.row + 1 };
        let new_coordinates = self.calc_coordinates_with_centre(Some(&new_centre));
        match board.check_is_valid_position(&new_coordinates) {
            PiecePositionValidity::Valid => {
                proof {
                    assert(on_board(cells(new_coordinates@)[0]));
                    assert(within(self.shape@[0], MAX_OFFSET as int));
                }
                Some(TetrisPiece { shape: self.shape, centre: new_centre })
            },
            _ => {
                board.fix_piece_in_place(self);
                None
            },
        }
    }
}

} // verus!
