//! The text view of the game: what to draw, as a queue of commands for the
//! terminal.

use vstd::prelude::*;
use vstd::string::StringExecFns;

use crate::models::{cells, fits, Coord, TetrisBoard, TetrisPiece};
use crate::geometry::Cell;

verus! {

/// One instruction for the terminal.
#[derive(Debug, PartialEq, Eq)]
pub enum DrawCommand {
    /// Put the cursor at a column and a row.
    MoveTo(u16, u16),
    /// Put the cursor at the start of a line further down.
    MoveToNextLine(u16),
    /// Write text at the cursor.
    Print(String),
    /// Underline what is written from here on.
    SetUnderlined,
    /// Stop underlining.
    SetNoUnderline,
}

/// A drawing instruction as the contracts see it.
pub enum Drawn {
    MoveTo(int, int),
    MoveToNextLine(int),
    Print(Seq<char>),
    SetUnderlined,
    SetNoUnderline,
}

impl View for DrawCommand {
    type V = Drawn;

    open spec fn view(&self) -> Drawn {
        match *self {
            DrawCommand::MoveTo(col, row) => Drawn::MoveTo(col as int, row as int),
            DrawCommand::MoveToNextLine(lines) => Drawn::MoveToNextLine(lines as int),
            DrawCommand::Print(text) => Drawn::Print(text@),
            DrawCommand::SetUnderlined => Drawn::SetUnderlined,
            DrawCommand::SetNoUnderline => Drawn::SetNoUnderline,
        }
    }
}

/// The instructions that a list of commands stands for.
pub open spec fn drawn(commands: Seq<DrawCommand>) -> Seq<Drawn> {
    Seq::new(commands.len(), |i: int| commands[i]@)
}

/// The texts of a list of strings.
pub open spec fn texts(lines: Seq<String>) -> Seq<Seq<char>> {
    Seq::new(lines.len(), |i: int| lines[i]@)
}

/// A row of the board as text: a bar, an `o` for each occupied cell and a
/// blank for each free one, and a bar.
pub open spec fn row_text(row: Seq<bool>) -> Seq<char> {
    seq!['|'] + Seq::new(
        row.len(),
        |c: int|
            if row[c] {
                'o'
            } else {
                ' '
            },
    ) + seq!['|']
}

/// The board drawn from the top left corner: every line but the last on a
/// line of its own, the last one underlined.
pub open spec fn board_drawing(lines: Seq<Seq<char>>) -> Seq<Drawn> {
    seq![Drawn::MoveTo(0, 0)] + Seq::new(
        (2 * (lines.len() - 1)) as nat,
        |i: int|
            if i % 2 == 0 {
                Drawn::Print(lines[i / 2])
            } else {
                Drawn::MoveToNextLine(1)
            },
    ) + seq![Drawn::SetUnderlined, Drawn::Print(lines.last()), Drawn::SetNoUnderline]
}

/// The piece drawn over the board: an `x` on each of its cells, one column
/// to the right for the board's left border.
pub open spec fn piece_drawing(covered: Seq<Cell>) -> Seq<Drawn> {
    Seq::new(
        (2 * covered.len()) as nat,
        |i: int|
            if i % 2 == 0 {
                Drawn::MoveTo(covered[i / 2].col + 1, covered[i / 2].row)
            } else {
                Drawn::Print("x"@)
            },
    )
}

/// Every cell can be drawn: its column and row, with the border, are
/// positions of the cursor.
pub open spec fn drawable(covered: Seq<Cell>) -> bool {
    forall|i: int|
        0 <= i < covered.len() ==> -1 <= (#[trigger] covered[i]).col < i16::MAX && covered[i].row
            >= 0
}

/// The decimal digit `d`.
pub open spec fn digit_char(d: int) -> char {
    if d == 0 {
        '0'
    } else if d == 1 {
        '1'
    } else if d == 2 {
        '2'
    } else if d == 3 {
        '3'
    } else if d == 4 {
        '4'
    } else if d == 5 {
        '5'
    } else if d == 6 {
        '6'
    } else if d == 7 {
        '7'
    } else if d == 8 {
        '8'
    } else {
        '9'
    }
}

/// The number `n` in decimal, without leading zeros.
pub open spec fn decimal(n: nat) -> Seq<char>
    decreases n,
{
    if n < 10 {
        seq![digit_char(n as int)]
    } else {
        decimal(n / 10).push(digit_char((n % 10) as int))
    }
}

/// The status lines: score, level and the time of a turn, right of the board.
pub open spec fn score_drawing(score: nat, level: nat, time_per_turn: nat) -> Seq<Drawn> {
    seq![
        Drawn::MoveTo(20, 13),
        Drawn::Print("Score: "@ + decimal(score)),
        Drawn::MoveTo(20, 14),
        Drawn::Print("Current Level: "@ + decimal(level)),
        Drawn::MoveTo(20, 15),
        Drawn::Print("Time per turn: "@ + decimal(time_per_turn) + " ms"@),
    ]
}

/// The introduction: the name of the game in large letters, and under it how
/// to play.
pub open spec fn intro_drawing() -> Seq<Drawn> {
    seq![
        Drawn::MoveTo(20, 0),
        Drawn::Print("##### ##### ##### ###   #####   ### "@),
        Drawn::MoveTo(20, 1),
        Drawn::Print("  #   #       #   #  #    #    # "@),
        Drawn::MoveTo(20, 2),
        Drawn::Print("  #   ####    #   ##      #     ##"@),
        Drawn::MoveTo(20, 3),
        Drawn::Print("  #   #       #   # #     #       #"@),
        Drawn::MoveTo(20, 4),
        Drawn::Print("  #   ####    #   #  #  #####   ##"@),
        Drawn::MoveTo(20, 6),
        Drawn::Print(
            "Use the arrows to move, 'x' to rotate clockwise and 'z' to rotate anticlockise. Hit Esc to quit."@,
        ),
    ]
}

/// One decimal digit as text.
fn digit_text(d: u64) -> (text: &'static str)
    requires
        d < 10,
    ensures
        text@ == seq![digit_char(d as int)],
{
    proof {
        reveal_strlit("0");
        reveal_strlit("1");
        reveal_strlit("2");
        reveal_strlit("3");
        reveal_strlit("4");
        reveal_strlit("5");
        reveal_strlit("6");
        reveal_strlit("7");
        reveal_strlit("8");
        reveal_strlit("9");
    }
    let text = match d {
        0 => "0",
        1 => "1",
        2 => "2",
        3 => "3",
        4 => "4",
        5 => "5",
        6 => "6",
        7 => "7",
        8 => "8",
        _ => "9",
    };
    assert(text@ =~= seq![digit_char(d as int)]);
    text
}

/// The number in decimal.
pub fn decimal_text(n: u64) -> (text: String)
    ensures
        text@ == decimal(n as nat),
    decreases n,
{
    if n < 10 {
        String::from_str(digit_text(n))
    } else {
        let mut text = decimal_text(n / 10);
        text.append(digit_text(n % 10));
        assert(text@ =~= decimal(n as nat));
        text
    }
}

/// The view: a queue of drawing commands, filled by the `draw_` methods and
/// emptied by whoever writes to the terminal.
pub struct CliView {
    queue: Vec<DrawCommand>,
}

impl CliView {
    /// The instructions queued so far, oldest first.
    pub closed spec fn queued(&self) -> Seq<Drawn> {
        drawn(self.queue@)
    }

    /// A view with nothing queued.
    pub fn new() -> (view: Self)
        ensures
            view.queued() == Seq::<Drawn>::empty(),
    {
        let view = Self { queue: Vec::new() };
        assert(view.queued() =~= Seq::<Drawn>::empty());
        view
    }

    /// Hands out the queued commands, oldest first, and empties the queue.
    pub fn take_commands(&mut self) -> (commands: Vec<DrawCommand>)
        ensures
            drawn(commands@) == old(self).queued(),
            final(self).queued() == Seq::<Drawn>::empty(),
    {
        let mut commands: Vec<DrawCommand> = Vec::new();
        std::mem::swap(&mut commands, &mut self.queue);
        assert(self.queued() =~= Seq::<Drawn>::empty());
        commands
    }

    fn push(&mut self, command: DrawCommand)
        ensures
            final(self).queued() == old(self).queued().push(command@),
    {
        self.queue.push(command);
        assert(self.queued() =~= old(self).queued().push(command@));
    }

    /// The board as lines of text, top row first.
    pub fn generate_board_string_view(tetris_board: &TetrisBoard) -> (view_lines: Vec<String>)
        ensures
            view_lines@.len() == tetris_board@.len(),
            forall|r: int|
                0 <= r < view_lines@.len() ==> (#[trigger] view_lines@[r])@ == row_text(
                    tetris_board@[r],
                ),
    {
        let mut view_lines: Vec<String> = Vec::with_capacity(tetris_board.board.len());
        let mut r: usize = 0;
        while r < tetris_board.board.len()
            invariant
                r <= tetris_board.board@.len(),
                view_lines@.len() == r,
                forall|k: int|
                    0 <= k < r ==> (#[trigger] view_lines@[k])@ == row_text(tetris_board@[k]),
            decreases tetris_board.board@.len() - r,
        {
            let line = &tetris_board.board[r];
            let ghost row = tetris_board@[r as int];
            assert(row == line@);
            proof {
                reveal_strlit("|");
                reveal_strlit("o");
                reveal_strlit(" ");
            }
            let mut text = String::from_str("|");
            let mut c: usize = 0;
            assert(text@ =~= seq!['|'] + Seq::new(
                0,
                |j: int|
                    if row[j] {
                        'o'
                    } else {
                        ' '
                    },
            ));
            while c < line.len()
                invariant
                    c <= line@.len(),
                    row == line@,
                    "|"@ == seq!['|'],
                    "o"@ == seq!['o'],
                    " "@ == seq![' '],
                    text@ == seq!['|'] + Seq::new(
                        c as nat,
                        |j: int|
                            if row[j] {
                                'o'
                            } else {
                                ' '
                            },
                    ),
                decreases line@.len() - c,
            {
                let ghost before = text@;
                if line[c] {
                    text.append("o");
                } else {
                    text.append(" ");
                }
                c += 1;
                assert(text@ =~= seq!['|'] + Seq::new(
                    c as nat,
                    |j: int|
                        if row[j] {
                            'o'
                        } else {
                            ' '
                        },
                ));
            }
            text.append("|");
            assert(text@ =~= row_text(row));
            view_lines.push(text);
            r += 1;
        }
        view_lines
    }

    /// Queues the board: from the top left corner, every line but the last on
    /// a line of its own, the last one underlined.
    pub fn draw_board(&mut self, board_string: Vec<String>)
        requires
            board_string@.len() > 0,
        ensures
            final(self).queued() == old(self).queued() + board_drawing(texts(board_string@)),
    {
        let ghost lines = texts(board_string@);
        let ghost start = self.queued();
        self.push(DrawCommand::MoveTo(0, 0));
        let last = board_string.len() - 1;
        let mut i: usize = 0;
        while i < last
            invariant
                i <= last,
                last == board_string@.len() - 1,
                lines == texts(board_string@),
                self.queued() == start + seq![Drawn::MoveTo(0, 0)] + Seq::new(
                    (2 * i) as nat,
                    |k: int|
                        if k % 2 == 0 {
                            Drawn::Print(lines[k / 2])
                        } else {
                            Drawn::MoveToNextLine(1)
                        },
                ),
            decreases last - i,
        {
            self.push(DrawCommand::Print(board_string[i].clone()));
            self.push(DrawCommand::MoveToNextLine(1));
            i += 1;
            assert(self.queued() =~= start + seq![Drawn::MoveTo(0, 0)] + Seq::new(
                (2 * i) as nat,
                |k: int|
                    if k % 2 == 0 {
                        Drawn::Print(lines[k / 2])
                    } else {
                        Drawn::MoveToNextLine(1)
                    },
            ));
        }
        self.push(DrawCommand::SetUnderlined);
        self.push(DrawCommand::Print(board_string[last].clone()));
        self.push(DrawCommand::SetNoUnderline);
        assert(self.queued() =~= start + board_drawing(lines));
    }

    /// Queues the piece: an `x` on each of its cells.
    pub fn draw_piece(&mut self, piece_coordinates: Vec<Coord>)
        requires
            drawable(cells(piece_coordinates@)),
        ensures
            final(self).queued() == old(self).queued() + piece_drawing(cells(piece_coordinates@)),
    {
        let ghost covered = cells(piece_coordinates@);
        let ghost start = self.queued();
        let mut i: usize = 0;
        assert(self.queued() =~= start + piece_drawing(covered.take(0)));
        while i < piece_coordinates.len()
            invariant
                i <= piece_coordinates@.len(),
                covered == cells(piece_coordinates@),
                drawable(covered),
                self.queued() == start + piece_drawing(covered.take(i as int)),
            decreases piece_coordinates@.len() - i,
        {
            let coord = piece_coordinates[i];
            assert(covered[i as int] == coord@);
            self.push(DrawCommand::MoveTo((coord.col + 1) as u16, coord.row as u16));
            self.push(DrawCommand::Print(String::from_str("x")));
            i += 1;
            assert(self.queued() =~= start + piece_drawing(covered.take(i as int)));
        }
        assert(covered.take(piece_coordinates@.len() as int) =~= covered);
    }

    /// Queues the board and, over it, the piece.
    pub fn draw_piece_and_board(&mut self, piece: &TetrisPiece, board: &TetrisBoard)
        requires
            board@.len() > 0,
            fits(piece.shape@, piece.centre),
            drawable(piece@.coordinates()),
        ensures
            final(self).queued() == old(self).queued() + board_drawing(
                Seq::new(board@.len(), |r: int| row_text(board@[r])),
            ) + piece_drawing(piece@.coordinates()),
    {
        let board_string = Self::generate_board_string_view(board);
        assert(texts(board_string@) =~= Seq::new(board@.len(), |r: int| row_text(board@[r])));
        self.draw_board(board_string);
        self.draw_piece(piece.coordinates());
    }

    /// Queues the status lines: score, level and the time of a turn.
    pub fn draw_score(&mut self, score: u64, level: u64, time_per_turn: u64)
        ensures
            final(self).queued() == old(self).queued() + score_drawing(
                score as nat,
                level as nat,
                time_per_turn as nat,
            ),
    {
        let ghost start = self.queued();
        self.push(DrawCommand::MoveTo(20, 13));
        let mut score_line = String::from_str("Score: ");
        score_line.append(decimal_text(score).as_str());
        self.push(DrawCommand::Print(score_line));
        self.push(DrawCommand::MoveTo(20, 14));
        let mut level_line = String::from_str("Current Level: ");
        level_line.append(decimal_text(level).as_str());
        self.push(DrawCommand::Print(level_line));
        self.push(DrawCommand::MoveTo(20, 15));
        let mut time_line = String::from_str("Time per turn: ");
        time_line.append(decimal_text(time_per_turn).as_str());
        time_line.append(" ms");
        self.push(DrawCommand::Print(time_line));
        assert(self.queued() =~= start + score_drawing(
            score as nat,
            level as nat,
            time_per_turn as nat,
        ));
    }

    /// Queues the introduction.
    pub fn draw_intro(&mut self)
        ensures
            final(self).queued() == old(self).queued() + intro_drawing(),
    {
        let ghost start = self.queued();
        self.push(DrawCommand::MoveTo(20, 0));
        self.push(DrawCommand::Print(String::from_str("##### ##### ##### ###   #####   ### ")));
        self.push(DrawCommand::MoveTo(20, 1));
        self.push(DrawCommand::Print(String::from_str("  #   #       #   #  #    #    # ")));
        self.push(DrawCommand::MoveTo(20, 2));
        self.push(DrawCommand::Print(String::from_str("  #   ####    #   ##      #     ##")));
        self.push(DrawCommand::MoveTo(20, 3));
        self.push(DrawCommand::Print(String::from_str("  #   #       #   # #     #       #")));
        self.push(DrawCommand::MoveTo(20, 4));
        self.push(DrawCommand::Print(String::from_str("  #   ####    #   #  #  #####   ##")));
        self.push(DrawCommand::MoveTo(20, 6));
        self.push(
            DrawCommand::Print(
                String::from_str(
                    "Use the arrows to move, 'x' to rotate clockwise and 'z' to rotate anticlockise. Hit Esc to quit.",
                ),
            ),
        );
        assert(self.queued() =~= start + intro_drawing());
    }
}

} // verus!
