use tictactoe::engine::{Game, GameStatus, MoveError};
use tictactoe::player::Player;

/// The full contents of a game state, for comparing states between calls.
fn snapshot(g: &Game) -> (Vec<Option<Player>>, Player) {
    let mut cells = Vec::new();
    for row in 0..3 {
        for col in 0..3 {
            cells.push(g.cell(row, col));
        }
    }
    (cells, g.turn())
}

fn play(g: &mut Game, moves: &[(usize, usize)]) {
    for &(row, col) in moves {
        assert_eq!(g.apply_move(row, col), Ok(()));
    }
}

#[test]
fn fresh_game_is_empty_not_full_no_winner_x_to_move() {
    let g = Game::new();
    assert!(g.is_empty());
    assert!(!g.is_full());
    assert_eq!(g.winner(), None);
    assert_eq!(g.turn(), Player::X);
    assert_eq!(g.status(), GameStatus::InProgress);
    for row in 0..3 {
        for col in 0..3 {
            assert_eq!(g.cell(row, col), None);
        }
    }
}

#[test]
fn move_on_free_cell_places_mark_and_toggles_turn() {
    let mut g = Game::new();
    assert_eq!(g.turn(), Player::X);
    assert_eq!(g.apply_move(1, 2), Ok(()));
    assert_eq!(g.cell(1, 2), Some(Player::X));
    assert_eq!(g.turn(), Player::O);
    assert_eq!(g.apply_move(2, 0), Ok(()));
    assert_eq!(g.cell(2, 0), Some(Player::O));
    assert_eq!(g.turn(), Player::X);
    assert!(!g.is_empty());
}

#[test]
fn out_of_bounds_is_rejected_and_state_is_unchanged() {
    let mut g = Game::new();
    assert_eq!(g.apply_move(0, 1), Ok(()));
    let before = snapshot(&g);
    assert_eq!(g.apply_move(3, 0), Err(MoveError::OutOfBounds));
    assert_eq!(g.apply_move(0, 3), Err(MoveError::OutOfBounds));
    assert_eq!(g.apply_move(3, 3), Err(MoveError::OutOfBounds));
    assert_eq!(g.apply_move(usize::MAX, 0), Err(MoveError::OutOfBounds));
    assert_eq!(snapshot(&g), before);
}

#[test]
fn out_of_bounds_is_reported_before_occupancy() {
    // Out-of-bounds wins over any other complaint even when the board is
    // full, and an occupied in-bounds cell is reported as taken.
    let mut g = Game::new();
    play(
        &mut g,
        &[(0, 1), (0, 0), (1, 1), (0, 2), (1, 2), (1, 0), (2, 0), (2, 1), (2, 2)],
    );
    assert!(g.is_full());
    assert_eq!(g.apply_move(5, 5), Err(MoveError::OutOfBounds));
    assert_eq!(g.apply_move(1, 1), Err(MoveError::CellTaken));
}

#[test]
fn same_move_twice_is_rejected_without_any_change() {
    let mut g = Game::new();
    assert_eq!(g.apply_move(2, 2), Ok(()));
    let after_first = snapshot(&g);
    assert_eq!(g.apply_move(2, 2), Err(MoveError::CellTaken));
    assert_eq!(snapshot(&g), after_first);
    assert_eq!(g.cell(2, 2), Some(Player::X));
    assert_eq!(g.turn(), Player::O);
}

#[test]
fn row_win_is_detected() {
    let mut g = Game::new();
    play(&mut g, &[(0, 0), (1, 1), (0, 1), (2, 2), (0, 2)]);
    assert_eq!(g.winner(), Some(Player::X));
    assert!(!g.is_full());
    assert_eq!(g.status(), GameStatus::Won(Player::X));
}

#[test]
fn column_win_is_detected() {
    let mut g = Game::new();
    play(&mut g, &[(0, 0), (1, 1), (1, 0), (2, 2), (2, 0)]);
    assert_eq!(g.winner(), Some(Player::X));
    assert_eq!(g.status(), GameStatus::Won(Player::X));
}

#[test]
fn diagonal_win_is_detected() {
    let mut g = Game::new();
    play(&mut g, &[(0, 0), (1, 0), (1, 1), (2, 1), (2, 2)]);
    assert_eq!(g.winner(), Some(Player::X));
    assert_eq!(g.status(), GameStatus::Won(Player::X));
}

#[test]
fn anti_diagonal_win_by_second_player_is_detected() {
    let mut g = Game::new();
    play(&mut g, &[(0, 0), (0, 2), (0, 1), (1, 1), (2, 2), (2, 0)]);
    assert_eq!(g.winner(), Some(Player::O));
    assert_eq!(g.status(), GameStatus::Won(Player::O));
}

#[test]
fn full_board_without_line_is_a_draw() {
    let mut g = Game::new();
    play(
        &mut g,
        &[(0, 1), (0, 0), (1, 1), (0, 2), (1, 2), (1, 0), (2, 0), (2, 1), (2, 2)],
    );
    assert_eq!(g.winner(), None);
    assert!(g.is_full());
    assert_eq!(g.status(), GameStatus::Drawn);
}

#[test]
fn queries_repeat_identically_without_intervening_moves() {
    let mut g = Game::new();
    play(&mut g, &[(0, 0), (1, 1), (0, 1), (2, 2), (0, 2)]);
    assert_eq!(g.winner(), g.winner());
    assert_eq!(g.is_full(), g.is_full());
    assert_eq!(g.status(), g.status());
    assert_eq!(g.winner(), Some(Player::X));
    assert_eq!(g.is_full(), false);
}

#[test]
fn other_swaps_the_marks() {
    assert_eq!(Player::X.other(), Player::O);
    assert_eq!(Player::O.other(), Player::X);
    assert_eq!(Player::X.other().other(), Player::X);
}

#[test]
fn render_shows_all_three_cell_states() {
    let mut g = Game::new();
    assert_eq!(g.render(), " .  .  . \n .  .  . \n .  .  . \n");
    assert_eq!(g.apply_move(0, 0), Ok(()));
    assert_eq!(g.apply_move(1, 1), Ok(()));
    assert_eq!(g.render(), " X  .  . \n .  O  . \n .  .  . \n");
}
