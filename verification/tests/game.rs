use tictactoe::{Coordinates, Grid, Player, Side, TicTacToe, AI};

fn tictactoe_from_settings() -> TicTacToe {
    TicTacToe::from(Grid::from(Side(3)), AI::Random)
}

#[test]
fn settings() {
    let tictactoe = tictactoe_from_settings();
    assert_eq!(tictactoe.cursor, Coordinates { x: 0, y: 0 });
    assert_eq!(tictactoe.grid, Grid::from(Side(3)));
    assert_eq!(tictactoe.ai_algo, AI::Random);
    let empty: Vec<Option<Player>> = vec![None; 9];
    assert_eq!(tictactoe.marked_positions, empty);
}

#[test]
fn set_cursor_to_grid() {
    let mut tictactoe = tictactoe_from_settings();
    let grid_coords = Coordinates { x: 2, y: 1 };
    tictactoe.set_cursor_to_grid(&grid_coords);
    assert_eq!(tictactoe.cursor, grid_coords);
}

#[test]
fn mark_and_overwrites() {
    let mut tictactoe = tictactoe_from_settings();
    let grid_coords = Coordinates { x: 1, y: 1 };
    tictactoe.set_cursor_to_grid(&grid_coords);
    assert!(tictactoe.mark_cross().is_ok());
    // Marking again at the same grid coordinates should error out.
    assert!(tictactoe.mark_cross().is_err());
    assert!(tictactoe.mark_zero().is_err());
}

#[test]
fn marked_positions() {
    let mut tictactoe = tictactoe_from_settings();
    tictactoe.set_cursor_to_grid(&Coordinates { x: 1, y: 1 });
    tictactoe.mark_cross().unwrap();
    tictactoe.set_cursor_to_grid(&Coordinates { x: 2, y: 0 });
    tictactoe.mark_zero().unwrap();
    tictactoe.set_cursor_to_grid(&Coordinates { x: 0, y: 0 });
    tictactoe.mark_cross().unwrap();
    let mut marked_positions: Vec<Option<Player>> = vec![None; 9];
    marked_positions[4] = Some(Player::Cross);
    marked_positions[2] = Some(Player::Zero);
    marked_positions[0] = Some(Player::Cross);
    assert_eq!(tictactoe.marked_positions, marked_positions);
}

#[test]
fn grid_has_empty_boxes() {
    let mut tictactoe = tictactoe_from_settings();
    tictactoe.set_cursor_to_grid(&Coordinates { x: 2, y: 2 });
    tictactoe.mark_cross().unwrap();
    tictactoe.set_cursor_to_grid(&Coordinates { x: 2, y: 1 });
    tictactoe.mark_zero().unwrap();
    tictactoe.set_cursor_to_grid(&Coordinates { x: 1, y: 0 });
    tictactoe.mark_cross().unwrap();
    assert!(tictactoe.grid_has_empty_boxes());
}

#[test]
fn grid_does_not_has_empty_boxes() {
    let mut tictactoe = tictactoe_from_settings();
    let Side(side) = tictactoe.grid.side;
    let mut iteration = 0;
    for x in 0..(side as i16) {
        for y in 0..(side as i16) {
            tictactoe.set_cursor_to_grid(&Coordinates { x, y });
            if iteration % 2 == 0 {
                tictactoe.mark_cross().unwrap();
            } else {
                tictactoe.mark_zero().unwrap();
            }
            iteration += 1;
        }
    }
    assert!(!tictactoe.grid_has_empty_boxes());
}

#[test]
fn check_for_victory() {
    let mut tictactoe = tictactoe_from_settings();
    let Side(side) = tictactoe.grid.side;
    for z in 0..(side as i16) {
        tictactoe.set_cursor_to_grid(&Coordinates { x: z, y: z });
        tictactoe.mark_cross().unwrap();
    }
    assert!(tictactoe.check_for_victory(&Player::Cross));
}

#[test]
fn check_for_not_victory() {
    let mut tictactoe = tictactoe_from_settings();
    let Side(side) = tictactoe.grid.side;
    for z in 0..(side as i16 - 1) {
        tictactoe.set_cursor_to_grid(&Coordinates { x: z, y: z });
        tictactoe.mark_cross().unwrap();
    }
    assert!(!tictactoe.check_for_victory(&Player::Cross));
}
