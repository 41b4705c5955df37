use vstd::prelude::*;
use vstd::string::StringExecFns;

use crate::player::Player;

verus! {

/// The three-character glyph that renders one cell: the mark between two
/// spaces, or a dot for an empty cell.
pub open spec fn glyph(c: Option<Player>) -> Seq<char> {
    match c {
        Some(Player::X) => seq![' ', 'X', ' '],
        Some(Player::O) => seq![' ', 'O', ' '],
        None => seq![' ', '.', ' '],
    }
}

/// Why a move was rejected. Rejection never changes the game state.
#[derive(Copy, Clone, PartialEq, Eq, Structural, Debug)]
pub enum MoveError {
    /// The row or the column index is 3 or more.
    OutOfBounds,
    /// The addressed cell already holds a mark.
    CellTaken,
}

/// The terminal condition of a state, with the win taking precedence over
/// the draw: a full board that holds a complete line is a win, not a draw.
#[derive(Copy, Clone, PartialEq, Eq, Structural, Debug)]
pub enum GameStatus {
    /// No complete line and at least one empty cell: the game goes on.
    InProgress,
    /// The given mark holds a complete line.
    Won(Player),
    /// The board is full and no mark holds a complete line.
    Drawn,
}

/// The mathematical model of a game state: the nine cells in row-major
/// order (index `row * 3 + col`) and the mark that moves next.
#[verifier::ext_equal]
pub struct GameView {
    pub cells: Seq<Option<Player>>,
    pub turn: Player,
}

impl GameView {
    /// A well-formed state has exactly nine cells.
    pub open spec fn wf(self) -> bool {
        self.cells.len() == 9
    }

    /// The cell in row `row` and column `col`.
    pub open spec fn cell(self, row: int, col: int) -> Option<Player>
        recommends
            0 <= row < 3,
            0 <= col < 3,
    {
        self.cells[row * 3 + col]
    }

    /// Every cell is unoccupied.
    pub open spec fn empty(self) -> bool {
        forall|i: int| 0 <= i < 9 ==> self.cells[i] is None
    }

    /// Every cell is occupied.
    pub open spec fn full(self) -> bool {
        forall|i: int| 0 <= i < 9 ==> self.cells[i] is Some
    }

    /// The state of a fresh game: an empty board, `X` to move.
    pub open spec fn init() -> GameView {
        GameView { cells: Seq::new(9, |i: int| None), turn: Player::X }
    }

    /// `p` holds all three cells of the line `(a, b, c)`, given as
    /// row-major indices.
    pub open spec fn line_won_by(self, a: int, b: int, c: int, p: Player) -> bool
        recommends
            0 <= a < 9,
            0 <= b < 9,
            0 <= c < 9,
    {
        self.cells[a] == Some(p) && self.cells[b] == Some(p) && self.cells[c] == Some(p)
    }

    /// `p` holds a complete row, column or diagonal.
    pub open spec fn wins(self, p: Player) -> bool {
        ||| self.line_won_by(0, 1, 2, p)
        ||| self.line_won_by(3, 4, 5, p)
        ||| self.line_won_by(6, 7, 8, p)
        ||| self.line_won_by(0, 3, 6, p)
        ||| self.line_won_by(1, 4, 7, p)
        ||| self.line_won_by(2, 5, 8, p)
        ||| self.line_won_by(0, 4, 8, p)
        ||| self.line_won_by(2, 4, 6, p)
    }

    /// The winner reported for this state. `X`'s lines are examined first,
    /// so on a board where both marks hold a line (which no played game
    /// produces) `X` is reported; on any board a valid game can reach, at
    /// most one mark holds a line.
    pub open spec fn winner_of(self) -> Option<Player> {
        if self.wins(Player::X) {
            Some(Player::X)
        } else if self.wins(Player::O) {
            Some(Player::O)
        } else {
            None
        }
    }

    /// The outcome of a move at `(row, col)`: out-of-bounds is reported in
    /// preference to occupancy, and a move on a free in-bounds cell succeeds.
    pub open spec fn move_outcome(self, row: int, col: int) -> Result<(), MoveError>
        recommends
            0 <= row,
            0 <= col,
    {
        if row >= 3 || col >= 3 {
            Err(MoveError::OutOfBounds)
        } else if self.cell(row, col) is Some {
            Err(MoveError::CellTaken)
        } else {
            Ok(())
        }
    }

    /// The state after a move at `(row, col)`: on success the cell takes
    /// the mark whose turn it was and the turn passes to the other mark;
    /// a rejected move leaves the state exactly as it was.
    pub open spec fn after_move(self, row: int, col: int) -> GameView
        recommends
            0 <= row,
            0 <= col,
    {
        if self.move_outcome(row, col) is Ok {
            GameView {
                cells: self.cells.update(row * 3 + col, Some(self.turn)),
                turn: self.turn.spec_other(),
            }
        } else {
            self
        }
    }

    /// The rendered text of one row: the three cell glyphs of the row,
    /// followed by a line feed.
    pub open spec fn row_text(self, row: int) -> Seq<char>
        recommends
            0 <= row < 3,
    {
        glyph(self.cell(row, 0)) + glyph(self.cell(row, 1)) + glyph(self.cell(row, 2)) + seq![
            '\n',
        ]
    }

    /// The rendered text of the whole board: one line per row.
    pub open spec fn rendering(self) -> Seq<char> {
        self.row_text(0) + self.row_text(1) + self.row_text(2)
    }

    /// The terminal condition of this state: a win if some mark holds a
    /// line, else a draw if the board is full, else the game goes on.
    pub open spec fn status_of(self) -> GameStatus {
        match self.winner_of() {
            Some(p) => GameStatus::Won(p),
            None => if self.full() {
                GameStatus::Drawn
            } else {
                GameStatus::InProgress
            },
        }
    }
}

/// The game engine: one 3-by-3 board and the mark that moves next. It is
/// driven by a caller that obtains candidate moves from the participants,
/// applies them with [`Game::apply_move`], and reads the terminal condition
/// with [`Game::status`] after every successful move.
pub struct Game {
    board: [Option<Player>; 9],
    current_player: Player,
}

impl View for Game {
    type V = GameView;

    closed spec fn view(&self) -> GameView {
        GameView { cells: self.board@, turn: self.current_player }
    }
}

impl Game {
    /// A fresh game: all nine cells empty and `X` to move.
    pub fn new() -> (g: Game)
        ensures
            g@ == GameView::init(),
    {
        let g = Game {
            board: [None, None, None, None, None, None, None, None, None],
            current_player: Player::X,
        };
        proof {
            assert(g@ =~= GameView::init());
        }
        g
    }

    /// The mark that the next successful move will place.
    pub fn turn(&self) -> (r: Player)
        ensures
            r == self@.turn,
    {
        self.current_player
    }

    /// The content of the cell in row `row` and column `col`.
    pub fn cell(&self, row: usize, col: usize) -> (r: Option<Player>)
        requires
            row < 3,
            col < 3,
        ensures
            r == self@.cell(row as int, col as int),
    {
        self.board[row * 3 + col]
    }

    /// Attempts the move at `(row, col)` for the mark whose turn it is.
    /// Out-of-bounds indices are rejected before occupancy is examined; a
    /// rejected move leaves the board and the turn untouched, and a
    /// successful move sets the cell and passes the turn to the other mark.
    pub fn apply_move(&mut self, row: usize, col: usize) -> (r: Result<(), MoveError>)
        ensures
            r == old(self)@.move_outcome(row as int, col as int),
            final(self)@ == old(self)@.after_move(row as int, col as int),
    {
        if row >= 3 || col >= 3 {
            return Err(MoveError::OutOfBounds);
        }
        let idx: usize = row * 3 + col;
        if self.board[idx].is_some() {
            return Err(MoveError::CellTaken);
        }
        self.board[idx] = Some(self.current_player);
        self.current_player = self.current_player.other();
        proof {
            assert(self@ =~= old(self)@.after_move(row as int, col as int));
        }
        Ok(())
    }

    /// True iff the cell at the row-major index `i` holds the mark `p`.
    fn cell_is(c: Option<Player>, p: Player) -> (r: bool)
        ensures
            r == (c == Some(p)),
    {
        match c {
            Some(q) => q == p,
            None => false,
        }
    }

    /// True iff `p` holds all three cells of the line `(a, b, c)`.
    fn line_won_by(&self, a: usize, b: usize, c: usize, p: Player) -> (r: bool)
        requires
            a < 9,
            b < 9,
            c < 9,
        ensures
            r == self@.line_won_by(a as int, b as int, c as int, p),
    {
        Self::cell_is(self.board[a], p) && Self::cell_is(self.board[b], p) && Self::cell_is(
            self.board[c],
            p,
        )
    }

    /// True iff `p` holds a complete row, column or diagonal.
    fn wins(&self, p: Player) -> (r: bool)
        ensures
            r == self@.wins(p),
    {
        self.line_won_by(0, 1, 2, p) || self.line_won_by(3, 4, 5, p) || self.line_won_by(
            6,
            7,
            8,
            p,
        ) || self.line_won_by(0, 3, 6, p) || self.line_won_by(1, 4, 7, p) || self.line_won_by(
            2,
            5,
            8,
            p,
        ) || self.line_won_by(0, 4, 8, p) || self.line_won_by(2, 4, 6, p)
    }

    /// The mark that holds a complete line, if any. All eight lines are
    /// examined; `None` is returned exactly when neither mark holds one.
    pub fn winner(&self) -> (r: Option<Player>)
        ensures
            r == self@.winner_of(),
    {
        if self.wins(Player::X) {
            Some(Player::X)
        } else if self.wins(Player::O) {
            Some(Player::O)
        } else {
            None
        }
    }

    /// True iff all nine cells are occupied.
    pub fn is_full(&self) -> (r: bool)
        ensures
            r == self@.full(),
    {
        let mut i: usize = 0;
        while i < 9
            invariant
                i <= 9,
                forall|j: int| 0 <= j < i ==> self@.cells[j] is Some,
            decreases 9 - i,
        {
            if self.board[i].is_none() {
                return false;
            }
            i = i + 1;
        }
        true
    }

    /// True iff all nine cells are unoccupied.
    pub fn is_empty(&self) -> (r: bool)
        ensures
            r == self@.empty(),
    {
        let mut i: usize = 0;
        while i < 9
            invariant
                i <= 9,
                forall|j: int| 0 <= j < i ==> self@.cells[j] is None,
            decreases 9 - i,
        {
            if self.board[i].is_some() {
                return false;
            }
            i = i + 1;
        }
        true
    }

    /// The glyph that renders the cell `c`.
    fn glyph_str(c: Option<Player>) -> (r: &'static str)
        ensures
            r@ == glyph(c),
    {
        proof {
            reveal_strlit(" X ");
            reveal_strlit(" O ");
            reveal_strlit(" . ");
        }
        let r: &'static str = match c {
            Some(Player::X) => " X ",
            Some(Player::O) => " O ",
            None => " . ",
        };
        proof {
            assert(r@ =~= glyph(c));
        }
        r
    }

    /// Appends the rendered text of row `row` to `out`.
    fn render_row(&self, row: usize, out: &mut String)
        requires
            row < 3,
        ensures
            final(out)@ == old(out)@ + self@.row_text(row as int),
    {
        proof {
            reveal_strlit("\n");
        }
        out.append(Self::glyph_str(self.cell(row, 0)));
        out.append(Self::glyph_str(self.cell(row, 1)));
        out.append(Self::glyph_str(self.cell(row, 2)));
        out.append("\n");
        proof {
            assert(out@ =~= old(out)@ + self@.row_text(row as int));
        }
    }

    /// The rendered board: one line per row, each cell as a three-character
    /// glyph, so that the two marks and the empty cell stay distinct.
    pub fn render(&self) -> (r: String)
        ensures
            r@ == self@.rendering(),
    {
        let mut out = String::new();
        self.render_row(0, &mut out);
        self.render_row(1, &mut out);
        self.render_row(2, &mut out);
        proof {
            assert(out@ =~= self@.rendering());
        }
        out
    }

    /// The terminal condition of the current state, with the win taking
    /// precedence over the draw.
    pub fn status(&self) -> (r: GameStatus)
        ensures
            r == self@.status_of(),
    {
        match self.winner() {
            Some(p) => GameStatus::Won(p),
            None => if self.is_full() {
                GameStatus::Drawn
            } else {
                GameStatus::InProgress
            },
        }
    }
}

} // verus!
