//! The decisions of the turn coordinator, and the score.

use vstd::pervasive::unreached;
use vstd::prelude::*;

use crate::geometry::{cleared, fixed, full_row_count, position_validity};
use crate::laws::lemma_spawn_coordinates;
use crate::models::{spawned, PiecePositionValidity, PieceShape, TetrisBoard, TetrisPiece};
use crate::turn_timer::turn_timer::TimerStatus;

verus! {

/// Puts a new piece of the given shape on the board. Where the cells it
/// would cover hold a fixed block already, there is no piece: the game is
/// over.
pub fn spawn_piece(board: &TetrisBoard, piece_shape: &PieceShape) -> (piece: Option<TetrisPiece>)
    requires
        board.wf(),
    ensures
        piece is None <==> position_validity(
            board@,
            spawned(*piece_shape).coordinates(),
        ) is PieceCollision,
        piece matches Some(live) ==> {
            &&& live.wf()
            &&& live@ == spawned(*piece_shape)
            &&& position_validity(board@, live@.coordinates()) is Valid
        },
{
    let tetris_piece = TetrisPiece::new(piece_shape);
    proof {
        lemma_spawn_coordinates(*piece_shape);
    }
    match board.check_is_valid_position(&tetris_piece.coordinates()) {
        PiecePositionValidity::PieceCollision => None,
        _ => Some(tetris_piece),
    }
}

/// Whether the coordinator goes on taking commands: it stops once an
/// end-of-turn event was raised, and once its timer is complete.
pub fn dropping_continues(end_turn_raised: bool, timer_status: TimerStatus) -> (go_on: bool)
    ensures
        go_on == (!end_turn_raised && timer_status is TimerNotComplete),
{
    if end_turn_raised {
        return false;
    }
    match timer_status {
        TimerStatus::TimerComplete => false,
        TimerStatus::TimerNotComplete => true,
    }
}

/// How a turn ended for the piece.
pub enum TurnResult {
    /// The piece fell by one row and goes on falling.
    StillFalling(TetrisPiece),
    /// The piece was fixed into the board; so many full rows were cleared.
    Locked(u16),
}

/// Ends a turn: one step of gravity and, where the piece cannot fall, the
/// piece is fixed into the board and the full rows are cleared.
pub fn end_turn(piece: TetrisPiece, board: &mut TetrisBoard) -> (result: TurnResult)
    requires
        piece.wf(),
        old(board).wf(),
        position_validity(old(board)@, piece@.coordinates()) is Valid,
    ensures
        final(board).wf(),
        position_validity(old(board)@, piece@.lowered().coordinates()) is Valid ==> {
            &&& result matches TurnResult::StillFalling(lower)
            &&& lower.wf()
            &&& lower@ == piece@.lowered()
            &&& final(board)@ == old(board)@
            &&& position_validity(final(board)@, lower@.coordinates()) is Valid
        },
        !(position_validity(old(board)@, piece@.lowered().coordinates()) is Valid) ==> {
            &&& result matches TurnResult::Locked(rows)
            &&& rows == full_row_count(fixed(old(board)@, piece@.coordinates()))
            &&& final(board)@ == cleared(fixed(old(board)@, piece@.coordinates()))
        },
{
    match piece.move_down(board) {
        Some(lower) => TurnResult::StillFalling(lower),
        None => TurnResult::Locked(board.clear_rows()),
    }
}

/// The length of a turn in frames of a sixtieth of a second: 48 at level 0
/// and five fewer with each level up to level 8, then eight up to level 10
/// and one fewer with each level after that, and never less than one.
pub open spec fn turn_frames(level: int) -> int {
    if level < 9 {
        48 - 5 * level
    } else if level < 11 {
        8
    } else if level < 17 {
        18 - level
    } else {
        1
    }
}

/// The length of a turn in milliseconds, rounded down.
pub open spec fn turn_duration_ms(level: int) -> int {
    (1000 * turn_frames(level)) / 60
}

/// A turn gets no longer as the level rises, and is never shorter than a
/// sixtieth of a second.
pub proof fn lemma_turns_get_no_longer(lower: int, higher: int)
    requires
        lower <= higher,
    ensures
        turn_frames(higher) <= turn_frames(lower),
        turn_duration_ms(higher) <= turn_duration_ms(lower),
        16 <= turn_duration_ms(higher),
{
}

/// The length of a turn at the given level, in milliseconds.
pub fn turn_duration(level: u64) -> (duration: u64)
    ensures
        duration == turn_duration_ms(level as int),
        16 <= duration <= 800,
        level > 0 ==> duration <= turn_duration_ms(level - 1),
{
    let frames: u64 = if level < 9 {
        48 - 5 * level
    } else if level < 11 {
        8
    } else if level < 17 {
        18 - level
    } else {
        1
    };
    (1000 * frames) / 60
}

/// The points for rows cleared in one turn, before the level counts:
/// 40, 100, 300 and 1200 for one to four rows, nothing otherwise.
pub open spec fn base_points(cleared_rows: int) -> int {
    if cleared_rows == 1 {
        40
    } else if cleared_rows == 2 {
        100
    } else if cleared_rows == 3 {
        300
    } else if cleared_rows == 4 {
        1200
    } else {
        0
    }
}

/// The points for rows cleared in one turn at the given level.
pub open spec fn points(cleared_rows: int, level: int) -> int {
    base_points(cleared_rows) * (level + 1)
}

/// The level rises with every ten rows cleared.
pub const ROWS_PER_LEVEL: u64 = 10;

/// A game's score and the rows cleared in it, as numbers without bound.
pub struct Tally {
    pub score: int,
    pub rows: int,
}

impl Tally {
    /// The level: one for every ten rows cleared in the game.
    pub open spec fn level(self) -> int {
        self.rows / (ROWS_PER_LEVEL as int)
    }

    /// The tally after a turn that cleared `cleared_rows` rows: the rows are
    /// added, and their points at the level of before the turn.
    pub open spec fn after(self, cleared_rows: int) -> Tally {
        Tally {
            score: self.score + points(cleared_rows, self.level()),
            rows: self.rows + cleared_rows,
        }
    }
}

/// The tally of a game from its start, given the rows that each of its
/// turns cleared.
pub open spec fn tally_of(turns: Seq<int>) -> Tally
    decreases turns.len(),
{
    if turns.len() == 0 {
        Tally { score: 0, rows: 0 }
    } else {
        tally_of(turns.drop_last()).after(turns.last())
    }
}

/// The rows cleared in all the turns together.
pub open spec fn rows_in(turns: Seq<int>) -> int
    decreases turns.len(),
{
    if turns.len() == 0 {
        0
    } else {
        rows_in(turns.drop_last()) + turns.last()
    }
}

/// The level of a game is a tenth of all the rows cleared in it, rounded
/// down: no row is lost when the level rises.
pub proof fn lemma_level_counts_all_rows(turns: Seq<int>)
    ensures
        tally_of(turns).rows == rows_in(turns),
        tally_of(turns).level() == rows_in(turns) / 10,
    decreases turns.len(),
{
    if turns.len() > 0 {
        lemma_level_counts_all_rows(turns.drop_last());
    }
}

/// Score, level and the rows cleared since the level last rose.
#[derive(Debug, PartialEq, Eq, Structural, Clone, Copy)]
pub struct GameProgress {
    pub score: u64,
    pub level: u64,
    pub cleared_rows_count: u64,
}

impl View for GameProgress {
    type V = Tally;

    open spec fn view(&self) -> Tally {
        Tally {
            score: self.score as int,
            rows: self.level * ROWS_PER_LEVEL + self.cleared_rows_count,
        }
    }
}

impl GameProgress {
    /// Fewer rows are counted than make a level.
    pub open spec fn wf(&self) -> bool {
        self.cleared_rows_count < ROWS_PER_LEVEL
    }

    /// The score and the level after a turn that cleared `cleared_rows` rows
    /// are numbers the fields hold.
    pub open spec fn can_hold(self, cleared_rows: int) -> bool {
        self@.after(cleared_rows).score <= u64::MAX && self@.after(cleared_rows).level()
            <= u64::MAX
    }

    /// The fields of a well-formed progress are those of its tally: the
    /// level is a tenth of the rows, and the count is what is left over.
    pub proof fn lemma_fields_follow_tally(self)
        requires
            self.wf(),
        ensures
            self.level == self@.level(),
            self.cleared_rows_count == self@.rows % 10,
    {
    }

    /// No points, no rows, level 0.
    pub fn new() -> (progress: Self)
        ensures
            progress.wf(),
            progress.score == 0 && progress.level == 0 && progress.cleared_rows_count == 0,
            progress@ == tally_of(Seq::<int>::empty()),
    {
        Self { score: 0, level: 0, cleared_rows_count: 0 }
    }

    /// The points for `cleared_rows` rows at this level, unless they are more
    /// than a 64-bit number holds.
    pub fn points_for(&self, cleared_rows: u16) -> (won: Option<u64>)
        ensures
            won is Some <==> points(cleared_rows as int, self.level as int) <= u64::MAX,
            won matches Some(p) ==> p == points(cleared_rows as int, self.level as int),
    {
        let base: u64 = match cleared_rows {
            1 => 40,
            2 => 100,
            3 => 300,
            4 => 1200,
            _ => 0,
        };
        if base == 0 {
            return Some(0);
        }
        match self.level.checked_add(1) {
            Some(factor) => {
                assert(base * factor == base_points(cleared_rows as int) * (self.level + 1));
                base.checked_mul(factor)
            },
            None => {
                assert(base * (self.level + 1) > u64::MAX) by (nonlinear_arith)
                    requires
                        base >= 1,
                        self.level + 1 > u64::MAX,
                ;
                None
            },
        }
    }

    /// Whether [`GameProgress::record`] may be called with these rows.
    pub fn can_record(&self, cleared_rows: u16) -> (ok: bool)
        requires
            self.wf(),
        ensures
            ok == self.can_hold(cleared_rows as int),
    {
        proof {
            self.lemma_fields_follow_tally();
        }
        let won = match self.points_for(cleared_rows) {
            Some(won) => won,
            None => {
                return false;
            },
        };
        if self.score.checked_add(won).is_none() {
            return false;
        }
        let count: u64 = self.cleared_rows_count + cleared_rows as u64;
        self.level.checked_add(count / ROWS_PER_LEVEL).is_some()
    }

    /// Takes note of a turn that cleared `cleared_rows` rows. Their points,
    /// at the level of before the turn, are added to the score. The rows are
    /// added to the rows of the game: the level rises by one for every ten
    /// of them, and the rows beyond a ten are kept for the next level.
    pub fn record(&mut self, cleared_rows: u16)
        requires
            old(self).wf(),
            old(self).can_hold(cleared_rows as int),
        ensures
            final(self).wf(),
            final(self)@ == old(self)@.after(cleared_rows as int),
            final(self).score == old(self).score + points(
                cleared_rows as int,
                old(self).level as int,
            ),
            final(self).level == final(self)@.rows / 10,
            final(self).cleared_rows_count == final(self)@.rows % 10,
    {
        proof {
            self.lemma_fields_follow_tally();
        }
        let won = match self.points_for(cleared_rows) {
            Some(won) => won,
            None => unreached(),
        };
        let count: u64 = self.cleared_rows_count + cleared_rows as u64;
        self.score = self.score + won;
        self.level = self.level + count / ROWS_PER_LEVEL;
        self.cleared_rows_count = count % ROWS_PER_LEVEL;
    }
}

} // verus!
