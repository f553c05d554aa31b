use tetris::game::{
    dropping_continues, end_turn, spawn_piece, turn_duration, GameProgress, TurnResult,
};
use tetris::models::{Coord, PieceShape, TetrisBoard, TetrisPiece};
use tetris::turn_timer::turn_timer::TimerStatus;

#[test]
fn turn_gets_shorter_with_the_level() {
    assert_eq!(turn_duration(0), 800);
    assert_eq!(turn_duration(1), 716);
    assert_eq!(turn_duration(7), 216);
    assert_eq!(turn_duration(8), 133);
    assert_eq!(turn_duration(9), 133);
    assert_eq!(turn_duration(10), 133);
    assert_eq!(turn_duration(11), 116);
    assert_eq!(turn_duration(16), 33);
    assert_eq!(turn_duration(17), 16);
    assert_eq!(turn_duration(18), 16);
    assert_eq!(turn_duration(19), 16);
    assert_eq!(turn_duration(u64::MAX), 16);
}

#[test]
fn no_level_has_a_longer_turn_than_the_one_before() {
    for level in 1..64 {
        assert!(turn_duration(level) <= turn_duration(level - 1));
        assert!(turn_duration(level) >= 16);
    }
}

#[test]
fn points_for_rows_at_a_level() {
    let level_zero = GameProgress::new();
    assert_eq!(level_zero.points_for(0), Some(0));
    assert_eq!(level_zero.points_for(1), Some(40));
    assert_eq!(level_zero.points_for(2), Some(100));
    assert_eq!(level_zero.points_for(3), Some(300));
    assert_eq!(level_zero.points_for(4), Some(1200));
    assert_eq!(level_zero.points_for(5), Some(0));
    let level_two = GameProgress { score: 0, level: 2, cleared_rows_count: 0 };
    assert_eq!(level_two.points_for(1), Some(120));
    assert_eq!(level_two.points_for(4), Some(3600));
    let last_level = GameProgress { score: 0, level: u64::MAX, cleared_rows_count: 0 };
    assert_eq!(last_level.points_for(1), None);
    assert_eq!(last_level.points_for(0), Some(0));
    let high_level = GameProgress { score: 0, level: u64::MAX / 40, cleared_rows_count: 0 };
    assert_eq!(high_level.points_for(1), None);
    assert_eq!(high_level.points_for(7), Some(0));
}

#[test]
fn level_rises_with_the_tenth_row() {
    let mut progress = GameProgress::new();
    assert_eq!(progress, GameProgress { score: 0, level: 0, cleared_rows_count: 0 });
    progress.record(4);
    assert_eq!(progress, GameProgress { score: 1200, level: 0, cleared_rows_count: 4 });
    progress.record(0);
    assert_eq!(progress, GameProgress { score: 1200, level: 0, cleared_rows_count: 4 });
    progress.record(4);
    assert_eq!(progress, GameProgress { score: 2400, level: 0, cleared_rows_count: 8 });
    progress.record(1);
    assert_eq!(progress, GameProgress { score: 2440, level: 0, cleared_rows_count: 9 });
    progress.record(3);
    assert_eq!(progress, GameProgress { score: 2740, level: 1, cleared_rows_count: 2 });
    progress.record(2);
    assert_eq!(progress, GameProgress { score: 2940, level: 1, cleared_rows_count: 4 });
}

#[test]
fn level_is_a_tenth_of_all_rows() {
    let mut progress = GameProgress::new();
    let mut levels = vec![];
    for _ in 0..6 {
        levels.push(progress.level);
        progress.record(4);
    }
    assert_eq!(levels, vec![0, 0, 0, 1, 1, 2]);
    assert_eq!(progress, GameProgress { score: 12000, level: 2, cleared_rows_count: 4 });

    let mut progress = GameProgress::new();
    let mut rows = 0u64;
    for turn in 0..200u16 {
        let cleared = turn % 5;
        assert!(progress.can_record(cleared));
        progress.record(cleared);
        rows += cleared as u64;
        assert_eq!(progress.level, rows / 10);
        assert_eq!(progress.cleared_rows_count, rows % 10);
    }
}

#[test]
fn many_rows_in_one_turn_raise_the_level_more_than_once() {
    let mut progress = GameProgress { score: 7, level: 3, cleared_rows_count: 6 };
    progress.record(25);
    assert_eq!(progress, GameProgress { score: 7, level: 6, cleared_rows_count: 1 });
}

#[test]
fn score_that_does_not_fit_is_told_beforehand() {
    let full = GameProgress { score: u64::MAX - 39, level: 0, cleared_rows_count: 0 };
    assert!(!full.can_record(1));
    assert!(full.can_record(0));
    let nearly = GameProgress { score: u64::MAX - 40, level: 0, cleared_rows_count: 0 };
    assert!(nearly.can_record(1));
    let last_level = GameProgress { score: 0, level: u64::MAX, cleared_rows_count: 9 };
    assert!(!last_level.can_record(1));
    assert!(!last_level.can_record(5));
    assert!(last_level.can_record(0));
    assert!(GameProgress::new().can_record(4));
}

#[test]
fn piece_spawns_on_an_empty_board() {
    let tetris_board = TetrisBoard::new();
    for piece_shape in PieceShape::iterator() {
        let tetris_piece = spawn_piece(&tetris_board, &piece_shape).unwrap();
        assert_eq!(tetris_piece.centre, Coord { col: 4, row: 2 });
        assert_eq!(tetris_piece.shape, piece_shape.shape());
    }
}

#[test]
fn game_is_over_when_the_new_piece_collides() {
    let mut tetris_board = TetrisBoard::new();
    tetris_board.board[2][6] = true;
    assert!(spawn_piece(&tetris_board, &PieceShape::Bar).is_none());
    assert!(spawn_piece(&tetris_board, &PieceShape::Square).is_some());
}

#[test]
fn coordinator_stops_on_either_signal() {
    assert!(dropping_continues(false, TimerStatus::TimerNotComplete));
    assert!(!dropping_continues(true, TimerStatus::TimerNotComplete));
    assert!(!dropping_continues(false, TimerStatus::TimerComplete));
    assert!(!dropping_continues(true, TimerStatus::TimerComplete));
}

#[test]
fn turn_ends_with_the_piece_one_row_lower() {
    let mut tetris_board = TetrisBoard::new();
    let tetris_piece = TetrisPiece::new(&PieceShape::L);
    match end_turn(tetris_piece, &mut tetris_board) {
        TurnResult::StillFalling(lower) => {
            assert_eq!(lower.centre, Coord { col: 4, row: 3 });
            assert_eq!(lower.shape, PieceShape::L.shape());
        }
        TurnResult::Locked(_) => panic!("the piece had room to fall"),
    }
    assert_eq!(tetris_board.board, TetrisBoard::new().board);
}

#[test]
fn turn_ends_with_the_piece_locked_and_rows_cleared() {
    let mut tetris_board = TetrisBoard::new();
    for col in 0..10 {
        tetris_board.board[15][col] = !(3..7).contains(&col);
        tetris_board.board[14][col] = col == 0;
    }
    let mut tetris_piece = TetrisPiece::new(&PieceShape::Bar);
    tetris_piece.centre = Coord { col: 4, row: 15 };
    match end_turn(tetris_piece, &mut tetris_board) {
        TurnResult::Locked(rows) => assert_eq!(rows, 1),
        TurnResult::StillFalling(_) => panic!("the piece stood on the floor"),
    }
    let mut expected = TetrisBoard::new();
    expected.board[15][0] = true;
    assert_eq!(tetris_board.board, expected.board);
}

#[test]
fn a_whole_game_of_bars_ends() {
    let mut tetris_board = TetrisBoard::new();
    let mut progress = GameProgress::new();
    let mut pieces = 0;
    while let Some(mut tetris_piece) = spawn_piece(&tetris_board, &PieceShape::Bar) {
        pieces += 1;
        assert!(pieces <= 16);
        loop {
            match end_turn(tetris_piece, &mut tetris_board) {
                TurnResult::StillFalling(lower) => tetris_piece = lower,
                TurnResult::Locked(rows) => {
                    progress.record(rows);
                    break;
                }
            }
        }
    }
    assert_eq!(pieces, 14);
    assert_eq!(progress, GameProgress::new());
    for row in 2..16 {
        assert_eq!(
            tetris_board.board[row],
            vec![false, false, false, true, true, true, true, false, false, false]
        );
    }
}
