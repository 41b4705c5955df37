use vstd::prelude::*;

use crate::engine::{GameStatus, GameView, MoveError};
use crate::player::Player;

verus! {

/// A fresh game is empty, not full, has no winner, and `X` moves first.
pub proof fn lemma_fresh_game(g: GameView)
    requires
        g == GameView::init(),
    ensures
        g.wf(),
        g.empty(),
        !g.full(),
        g.winner_of() is None,
        g.status_of() == GameStatus::InProgress,
        g.turn == Player::X,
{
    assert(g.cells[0] is None);
}

/// A move on a free in-bounds cell succeeds: the cell takes the mark whose
/// turn it was, every other cell is untouched, and the turn passes to the
/// other mark.
pub proof fn lemma_move_into_free_cell(g: GameView, row: int, col: int)
    requires
        g.wf(),
        0 <= row < 3,
        0 <= col < 3,
        g.cell(row, col) is None,
    ensures
        g.move_outcome(row, col) == Ok::<(), MoveError>(()),
        g.after_move(row, col).wf(),
        g.after_move(row, col).cell(row, col) == Some(g.turn),
        g.after_move(row, col).turn == g.turn.spec_other(),
        forall|r2: int, c2: int|
            0 <= r2 < 3 && 0 <= c2 < 3 && !(r2 == row && c2 == col) ==> g.after_move(
                row,
                col,
            ).cell(r2, c2) == g.cell(r2, c2),
{
}

/// A move outside the board fails with `OutOfBounds` and leaves the state
/// exactly as it was, whether or not the addressed cell could be occupied.
pub proof fn lemma_out_of_bounds_rejected(g: GameView, row: int, col: int)
    requires
        row >= 3 || col >= 3,
    ensures
        g.move_outcome(row, col) == Err::<(), MoveError>(MoveError::OutOfBounds),
        g.after_move(row, col) == g,
{
}

/// Applying the same in-bounds move twice: the first application succeeds,
/// the second is rejected with `CellTaken`, and the rejection leaves the
/// state exactly as it stood after the first application.
pub proof fn lemma_same_move_twice(g: GameView, row: int, col: int)
    requires
        g.wf(),
        0 <= row < 3,
        0 <= col < 3,
        g.cell(row, col) is None,
    ensures
        g.move_outcome(row, col) == Ok::<(), MoveError>(()),
        g.after_move(row, col).move_outcome(row, col) == Err::<(), MoveError>(
            MoveError::CellTaken,
        ),
        g.after_move(row, col).after_move(row, col) == g.after_move(row, col),
{
}

/// The turn advances exactly on success: a successful move passes the turn
/// to the other mark, and a rejected move changes nothing at all.
pub proof fn lemma_turn_advances_only_on_success(g: GameView, row: int, col: int)
    requires
        0 <= row,
        0 <= col,
    ensures
        g.move_outcome(row, col) is Ok ==> g.after_move(row, col).turn == g.turn.spec_other(),
        g.move_outcome(row, col) is Err ==> g.after_move(row, col) == g,
{
}

/// A mark, once placed, is permanent: no later move, accepted or rejected,
/// changes an occupied cell.
pub proof fn lemma_marks_are_permanent(g: GameView, row: int, col: int, r2: int, c2: int)
    requires
        g.wf(),
        0 <= row,
        0 <= col,
        0 <= r2 < 3,
        0 <= c2 < 3,
        g.cell(r2, c2) is Some,
    ensures
        g.after_move(row, col).cell(r2, c2) == g.cell(r2, c2),
{
}

/// A full board rejects every move: once full, the board cannot receive
/// another mark.
pub proof fn lemma_full_board_rejects_all(g: GameView, row: int, col: int)
    requires
        g.wf(),
        g.full(),
        0 <= row,
        0 <= col,
    ensures
        g.move_outcome(row, col) is Err,
        g.after_move(row, col) == g,
{
}

/// The reported winner is sound and complete: a reported mark holds a
/// complete line, and `None` is reported exactly when neither mark does.
pub proof fn lemma_winner_sound(g: GameView)
    ensures
        match g.winner_of() {
            Some(p) => g.wins(p),
            None => forall|p: Player| !g.wins(p),
        },
{
    if g.winner_of() is None {
        assert forall|p: Player| !g.wins(p) by {
            match p {
                Player::X => assert(!g.wins(Player::X)),
                Player::O => assert(!g.wins(Player::O)),
            }
        }
    }
}

/// The win takes precedence over the draw: a full board on which a mark
/// holds a complete line is reported as won, never as drawn, and a draw is
/// reported exactly on a full board without a winner.
pub proof fn lemma_win_precedes_draw(g: GameView)
    ensures
        g.winner_of() is Some ==> g.status_of() == GameStatus::Won(g.winner_of()->0),
        g.status_of() == GameStatus::Drawn <==> g.full() && g.winner_of() is None,
{
}

/// A winning move is won by its mover: on a board without a winner, a
/// successful move never completes a line for the opposing mark, so a
/// caller that stops play at the first win never sees two winning marks.
pub proof fn lemma_winner_is_the_mover(g: GameView, row: int, col: int)
    requires
        g.wf(),
        0 <= row,
        0 <= col,
        g.winner_of() is None,
        g.move_outcome(row, col) is Ok,
    ensures
        g.after_move(row, col).winner_of() is None || g.after_move(row, col).winner_of() == Some(
            g.turn,
        ),
{
    let h = g.after_move(row, col);
    let q = g.turn.spec_other();
    assert(!h.wins(q)) by {
        assert(!g.wins(q));
        assert(forall|a: int|
            0 <= a < 9 ==> (#[trigger] h.cells[a] == Some(q) ==> g.cells[a] == Some(q)));
    }
    match g.turn {
        Player::X => assert(!h.wins(Player::O)),
        Player::O => assert(!h.wins(Player::X)),
    }
}

/// The queries are pure: the winner and the fullness of a state are
/// functions of the state alone, so two evaluations on the same state,
/// with no move in between, agree.
pub proof fn lemma_queries_are_pure(
    g: GameView,
    w1: Option<Player>,
    w2: Option<Player>,
    f1: bool,
    f2: bool,
)
    requires
        w1 == g.winner_of(),
        w2 == g.winner_of(),
        f1 == g.full(),
        f2 == g.full(),
    ensures
        w1 == w2,
        f1 == f2,
{
}

} // verus!
