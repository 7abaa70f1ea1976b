use tictactoe::{Coordinates, Player, Side, AI};

#[test]
fn get_marker() {
    let side = Side(3);
    // Marks at (1, 0), (2, 1) and (1, 2) on a 3x3 board, stored row by row.
    let mut marked_positions: Vec<Option<Player>> = vec![None; 9];
    marked_positions[1] = Some(Player::Cross);
    marked_positions[5] = Some(Player::Zero);
    marked_positions[7] = Some(Player::Cross);
    let marker = AI::Random
        .get_marker(&marked_positions, &side)
        .expect("the random strategy is implemented");
    let positions = [
        Coordinates { x: 1, y: 0 },
        Coordinates { x: 2, y: 1 },
        Coordinates { x: 1, y: 2 },
    ];
    let is_new_move = !positions.contains(&marker);
    assert!(is_new_move)
}

#[test]
fn get_marker_only_free_cell() {
    // With a single free cell left, the random draw has no choice.
    let side = Side(3);
    let mut marked_positions: Vec<Option<Player>> = vec![Some(Player::Cross); 9];
    marked_positions[5] = None;
    let marker = AI::Random
        .get_marker(&marked_positions, &side)
        .expect("the random strategy is implemented");
    assert_eq!(marker, Coordinates { x: 2, y: 1 });
}

#[test]
fn get_marker_unimplemented_strategy() {
    let side = Side(3);
    let marked_positions: Vec<Option<Player>> = vec![None; 9];
    let result = AI::MiniMax.get_marker(&marked_positions, &side);
    assert_eq!(result, Err(tictactoe::GameError::NotImplemented));
}
