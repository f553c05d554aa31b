use crossterm::style::Attribute;
use crossterm::{cursor, style, QueueableCommand};
use tetris::models::{Coord, PieceShape, TetrisBoard, TetrisPiece};
use tetris::views::{decimal_text, CliView, DrawCommand};

fn written(commands: Vec<DrawCommand>) -> Vec<u8> {
    let mut buffer: Vec<u8> = Vec::new();
    for command in commands {
        match command {
            DrawCommand::MoveTo(col, row) => buffer.queue(cursor::MoveTo(col, row)),
            DrawCommand::MoveToNextLine(lines) => buffer.queue(cursor::MoveToNextLine(lines)),
            DrawCommand::Print(text) => buffer.queue(style::Print(text)),
            DrawCommand::SetUnderlined => buffer.queue(style::SetAttribute(Attribute::Underlined)),
            DrawCommand::SetNoUnderline => {
                buffer.queue(style::SetAttribute(Attribute::NoUnderline))
            }
        }
        .expect("Writing to test writer failed.");
    }
    buffer
}

const MOVE_TO_START: [u8; 6] = [27, 91, 49, 59, 49, 72];
const MOVE_TO_NEXT_LINE: [u8; 4] = [27, 91, 49, 69];
const SET_UNDERLINED: [u8; 4] = [27, 91, 52, 109];
const SET_NOT_UNDERLINED: [u8; 5] = [27, 91, 50, 52, 109];

fn move_to(col: u8, row: u8) -> [u8; 6] {
    return [
        MOVE_TO_START[0],
        MOVE_TO_START[1],
        MOVE_TO_START[2] + row,
        MOVE_TO_START[3],
        MOVE_TO_START[4] + col,
        MOVE_TO_START[5],
    ];
}

#[test]
fn test_cli_view_generates_board() {
    let expected_string = vec![String::from("|          |"); 16];
    let tetris_board = TetrisBoard::new();
    let cli_string = CliView::generate_board_string_view(&tetris_board);
    assert_eq!(cli_string, expected_string);
}

#[test]
fn test_cli_view_writes_board() {
    let board_row = "|          |";
    let board_row_bytes: [u8; 12] = board_row.as_bytes().try_into().unwrap();

    let expected_buffer: Vec<u8> = MOVE_TO_START
        .into_iter()
        .chain(board_row_bytes)
        .chain(MOVE_TO_NEXT_LINE)
        .chain(SET_UNDERLINED)
        .chain(board_row_bytes)
        .chain(SET_NOT_UNDERLINED)
        .collect();

    let cli_string = vec![String::from(board_row); 2];
    let mut test_viewer = CliView::new();
    test_viewer.draw_board(cli_string);
    assert_eq!(written(test_viewer.take_commands()), expected_buffer);
}

#[test]
fn test_cli_view_writes_piece() {
    let expected_buffer: Vec<u8> = move_to(2, 1)
        .into_iter()
        .chain(['x' as u8])
        .chain(move_to(3, 1))
        .chain(['x' as u8])
        .chain(move_to(3, 2))
        .chain(['x' as u8])
        .chain(move_to(4, 2))
        .chain(['x' as u8])
        .collect();

    let mut test_viewer = CliView::new();
    let piece_coords = vec![
        Coord { col: 1, row: 1 },
        Coord { col: 2, row: 1 },
        Coord { col: 2, row: 2 },
        Coord { col: 3, row: 2 },
    ];
    test_viewer.draw_piece(piece_coords);
    assert_eq!(written(test_viewer.take_commands()), expected_buffer);
}

#[test]
fn board_lines_show_the_blocks() {
    let mut tetris_board = TetrisBoard::new();
    tetris_board.board[0][0] = true;
    tetris_board.board[15] = vec![true; 10];
    tetris_board.board[7][9] = true;
    let lines = CliView::generate_board_string_view(&tetris_board);
    assert_eq!(lines.len(), 16);
    assert_eq!(lines[0], "|o         |");
    assert_eq!(lines[7], "|         o|");
    assert_eq!(lines[15], "|oooooooooo|");
    assert_eq!(lines[1], "|          |");
}

#[test]
fn board_of_one_line_is_underlined() {
    let mut view = CliView::new();
    view.draw_board(vec![String::from("|o|")]);
    assert_eq!(
        view.take_commands(),
        vec![
            DrawCommand::MoveTo(0, 0),
            DrawCommand::SetUnderlined,
            DrawCommand::Print(String::from("|o|")),
            DrawCommand::SetNoUnderline,
        ]
    );
}

#[test]
fn board_of_three_lines() {
    let mut view = CliView::new();
    view.draw_board(vec![String::from("a"), String::from("b"), String::from("c")]);
    assert_eq!(
        view.take_commands(),
        vec![
            DrawCommand::MoveTo(0, 0),
            DrawCommand::Print(String::from("a")),
            DrawCommand::MoveToNextLine(1),
            DrawCommand::Print(String::from("b")),
            DrawCommand::MoveToNextLine(1),
            DrawCommand::SetUnderlined,
            DrawCommand::Print(String::from("c")),
            DrawCommand::SetNoUnderline,
        ]
    );
    assert!(view.take_commands().is_empty());
}

#[test]
fn piece_is_drawn_right_of_the_border() {
    let mut view = CliView::new();
    view.draw_piece(vec![Coord { col: 0, row: 0 }, Coord { col: 9, row: 15 }]);
    assert_eq!(
        view.take_commands(),
        vec![
            DrawCommand::MoveTo(1, 0),
            DrawCommand::Print(String::from("x")),
            DrawCommand::MoveTo(10, 15),
            DrawCommand::Print(String::from("x")),
        ]
    );
}

#[test]
fn piece_is_drawn_over_the_board() {
    let mut view = CliView::new();
    let tetris_board = TetrisBoard::new();
    let tetris_piece = TetrisPiece::new(&PieceShape::Square);
    view.draw_piece_and_board(&tetris_piece, &tetris_board);
    let commands = view.take_commands();
    assert_eq!(commands.len(), 1 + 2 * 15 + 3 + 2 * 4);
    assert_eq!(commands[0], DrawCommand::MoveTo(0, 0));
    assert_eq!(commands[1], DrawCommand::Print(String::from("|          |")));
    assert_eq!(commands[2], DrawCommand::MoveToNextLine(1));
    assert_eq!(commands[31], DrawCommand::SetUnderlined);
    assert_eq!(commands[33], DrawCommand::SetNoUnderline);
    assert_eq!(
        commands[34..],
        [
            DrawCommand::MoveTo(5, 2),
            DrawCommand::Print(String::from("x")),
            DrawCommand::MoveTo(5, 3),
            DrawCommand::Print(String::from("x")),
            DrawCommand::MoveTo(6, 3),
            DrawCommand::Print(String::from("x")),
            DrawCommand::MoveTo(6, 2),
            DrawCommand::Print(String::from("x")),
        ]
    );
}

#[test]
fn numbers_are_written_in_decimal() {
    assert_eq!(decimal_text(0), "0");
    assert_eq!(decimal_text(7), "7");
    assert_eq!(decimal_text(10), "10");
    assert_eq!(decimal_text(1200), "1200");
    assert_eq!(decimal_text(9876543210), "9876543210");
    assert_eq!(decimal_text(u64::MAX), "18446744073709551615");
}

#[test]
fn score_lines() {
    let mut view = CliView::new();
    view.draw_score(1340, 2, 633);
    assert_eq!(
        view.take_commands(),
        vec![
            DrawCommand::MoveTo(20, 13),
            DrawCommand::Print(String::from("Score: 1340")),
            DrawCommand::MoveTo(20, 14),
            DrawCommand::Print(String::from("Current Level: 2")),
            DrawCommand::MoveTo(20, 15),
            DrawCommand::Print(String::from("Time per turn: 633 ms")),
        ]
    );
}

#[test]
fn introduction() {
    let mut view = CliView::new();
    view.draw_intro();
    let commands = view.take_commands();
    assert_eq!(commands.len(), 12);
    for (line, row) in [0u16, 1, 2, 3, 4, 6].into_iter().enumerate() {
        assert_eq!(commands[2 * line], DrawCommand::MoveTo(20, row));
    }
    assert_eq!(
        commands[1],
        DrawCommand::Print(String::from("##### ##### ##### ###   #####   ### "))
    );
    assert_eq!(
        commands[9],
        DrawCommand::Print(String::from("  #   ####    #   #  #  #####   ##"))
    );
    assert_eq!(
        commands[11],
        DrawCommand::Print(String::from(
            "Use the arrows to move, 'x' to rotate clockwise and 'z' to rotate anticlockise. Hit Esc to quit."
        ))
    );
}

#[test]
fn queue_keeps_the_order_of_the_drawings() {
    let mut view = CliView::new();
    view.draw_piece(vec![Coord { col: 2, row: 3 }]);
    view.draw_board(vec![String::from("|")]);
    let commands = view.take_commands();
    assert_eq!(commands[0], DrawCommand::MoveTo(3, 3));
    assert_eq!(commands[2], DrawCommand::MoveTo(0, 0));
    assert_eq!(commands.len(), 6);
}
