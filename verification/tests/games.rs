use icarus::games::{
    snake_step, StepOutcome,
    computer_turn, judge, GameState,
    get_win_tile, idx_to_pos, is_next_move_valid, Direction, is_border, is_valid_pos, place_blocking, place_naive,
    place_prefer_corners, pos_to_idx, place_apple, score_update, ScoreOutcome,
};

#[test]
fn borders_of_a_field() {
    assert!(is_border((0, 3), 5, 7));
    assert!(is_border((4, 3), 5, 7));
    assert!(is_border((2, 0), 5, 7));
    assert!(is_border((2, 6), 5, 7));
    assert!(!is_border((2, 3), 5, 7));
    assert!(is_border((0, 0), 0, 0));
}

#[test]
fn positions_inside_a_field() {
    assert!(is_valid_pos((0, 0), 3, 4));
    assert!(is_valid_pos((2, 3), 3, 4));
    assert!(!is_valid_pos((3, 0), 3, 4));
    assert!(!is_valid_pos((0, 4), 3, 4));
    assert!(!is_valid_pos((-1, 0), 3, 4));
    assert!(!is_valid_pos((0, -1), 3, 4));
}

#[test]
fn board_indices() {
    assert_eq!(pos_to_idx(3, 2), 23);
    assert_eq!(idx_to_pos(23), (3, 2));
    assert_eq!(idx_to_pos(9), (9, 0));
    assert_eq!(idx_to_pos(10), (0, 1));
    for idx in 0..200 {
        let (x, y) = idx_to_pos(idx);
        assert_eq!(pos_to_idx(x, y), idx);
    }
}

const X: Option<usize> = Some(0);
const O: Option<usize> = Some(1);
const E: Option<usize> = None;

#[test]
fn winning_tiles() {
    assert_eq!(get_win_tile(&[X, X, E, E, E, E, E, E, E], 0), Some(2));
    assert_eq!(get_win_tile(&[X, E, X, E, E, E, E, E, E], 0), Some(1));
    assert_eq!(get_win_tile(&[E, E, E, E, E, E, E, X, X], 0), Some(6));
    assert_eq!(get_win_tile(&[O, E, E, O, E, E, E, E, E], 1), Some(6));
    assert_eq!(get_win_tile(&[E, E, E, E, O, E, E, E, O], 1), Some(0));
    assert_eq!(get_win_tile(&[E, E, X, E, E, E, X, E, E], 0), Some(4));
    assert_eq!(get_win_tile(&[X, X, E, E, E, E, E, E, E], 1), None);
    assert_eq!(get_win_tile(&[X, O, X, O, X, O, O, X, O], 0), None);
    // Rows are looked at before columns.
    assert_eq!(get_win_tile(&[X, E, E, X, X, E, E, E, E], 0), Some(5));
}

#[test]
fn naive_and_corner_moves() {
    let mut t = [X, O, E, E, E, E, E, E, E];
    place_naive(&mut t, 1);
    assert_eq!(t, [X, O, O, E, E, E, E, E, E]);
    let mut t = [X, E, E, E, E, E, E, E, E];
    place_prefer_corners(&mut t, 1);
    assert_eq!(t, [X, E, O, E, E, E, E, E, E]);
    let mut t = [X, E, X, E, E, E, O, E, O];
    place_prefer_corners(&mut t, 1);
    assert_eq!(t, [X, O, X, E, E, E, O, E, O]);
    let mut full = [X, O, X, O, X, O, O, X, O];
    place_naive(&mut full, 1);
    assert_eq!(full, [X, O, X, O, X, O, O, X, O]);
}

#[test]
fn blocking_moves() {
    // Win where possible.
    let mut t = [O, O, E, X, X, E, E, E, E];
    place_blocking(&mut t, 1);
    assert_eq!(t, [O, O, O, X, X, E, E, E, E]);
    // Otherwise block.
    let mut t = [E, E, E, X, X, E, E, E, E];
    place_blocking(&mut t, 1);
    assert_eq!(t, [E, E, E, X, X, O, E, E, E]);
    // Otherwise take the corner next to the opponent.
    let mut t = [E, E, E, E, E, X, E, E, E];
    place_blocking(&mut t, 1);
    assert_eq!(t, [E, E, E, E, E, X, E, E, O]);
    // Otherwise a corner.
    let mut t = [E, E, E, E, X, E, E, E, E];
    place_blocking(&mut t, 1);
    assert_eq!(t, [O, E, E, E, X, E, E, E, E]);
}

#[test]
fn snake_moves() {
    let body = [(2, 2), (2, 3), (3, 3)];
    assert!(is_next_move_valid((2, 2), &body, Direction::Up, 5, 5));
    assert!(is_next_move_valid((2, 2), &body, Direction::Left, 5, 5));
    assert!(!is_next_move_valid((2, 2), &body, Direction::Right, 5, 5));
    assert!(is_next_move_valid((2, 2), &body, Direction::Down, 5, 5));
    assert!(!is_next_move_valid((0, 0), &[(0, 0)], Direction::Up, 5, 5));
    assert!(!is_next_move_valid((0, 4), &[(0, 4)], Direction::Right, 5, 5));
}

#[test]
fn judging_the_board() {
    assert_eq!(judge(&[X, X, X, O, O, E, E, E, E], 1, GameState::Playing), GameState::Win(0));
    assert_eq!(judge(&[O, X, X, O, X, E, O, E, E], 0, GameState::Playing), GameState::Win(1));
    assert_eq!(judge(&[X, O, X, X, O, O, O, X, X], 1, GameState::Playing), GameState::Draw);
    assert_eq!(judge(&[X, O, E, E, E, E, E, E, E], 0, GameState::Playing), GameState::Playing);
    assert_eq!(judge(&[X, E, E, E, X, E, E, E, X], 1, GameState::Playing), GameState::Win(0));
}

#[test]
fn computer_turns() {
    let mut t = [X, E, E, E, E, E, E, E, E];
    computer_turn(&mut t, 1);
    assert_eq!(t, [X, E, E, E, O, E, E, E, E]);
    let mut t = [E, E, E, E, X, E, E, E, E];
    computer_turn(&mut t, 1);
    assert_eq!(t, [O, E, E, E, X, E, E, E, E]);
    let mut t = [X, X, E, E, O, E, E, E, E];
    computer_turn(&mut t, 1);
    assert_eq!(t, [X, X, O, E, O, E, E, E, E]);
}

#[test]
fn snake_steps() {
    let start = vec![((2, 2), Direction::Left), ((2, 3), Direction::Left), ((2, 4), Direction::Left)];
    let mut snake = start.clone();
    assert_eq!(snake_step(&mut snake, Direction::Left, (0, 0), 5, 5), StepOutcome::Moved);
    assert_eq!(snake, vec![((2, 1), Direction::Left), ((2, 2), Direction::Left), ((2, 3), Direction::Left)]);
    let mut snake = start.clone();
    assert_eq!(snake_step(&mut snake, Direction::Up, (1, 2), 5, 5), StepOutcome::Ate);
    assert_eq!(snake.len(), 4);
    assert_eq!(snake[0], ((1, 2), Direction::Up));
    let mut snake = start.clone();
    assert_eq!(snake_step(&mut snake, Direction::Right, (0, 0), 5, 5), StepOutcome::Crashed);
    assert_eq!(snake, start);
    let mut edge = vec![((0, 0), Direction::Up)];
    assert_eq!(snake_step(&mut edge, Direction::Up, (0, 0), 5, 5), StepOutcome::Crashed);
}

#[test]
fn placing_the_apple() {
    let snake = vec![((2, 2), Direction::Up), ((3, 2), Direction::Up), ((3, 3), Direction::Left)];
    assert_eq!(place_apple(&snake, 5, 6, 7, 9), Some((2, 3)));
    assert_eq!(place_apple(&snake, 5, 6, 8, 3), None);
    assert_eq!(place_apple(&snake, 5, 6, 2, 2), None);
    assert_eq!(place_apple(&snake, 5, 6, 4, 5), Some((4, 5)));
    assert_eq!(place_apple(&[], 1, 1, 10, 20), Some((0, 0)));
}

#[test]
fn scoring_in_the_paddle_game() {
    let (mut left, mut right) = (0u32, 0u32);
    assert_eq!(score_update(&mut left, &mut right, 0, 1), ScoreOutcome::Resume);
    assert_eq!((left, right), (0, 1));
    assert_eq!(score_update(&mut left, &mut right, 1, 0), ScoreOutcome::Resume);
    assert_eq!(score_update(&mut left, &mut right, 0, 1), ScoreOutcome::GameOver(1));
    assert_eq!((left, right), (1, 2));
    let (mut l2, mut r2) = (1u32, 1u32);
    assert_eq!(score_update(&mut l2, &mut r2, 1, 1), ScoreOutcome::GameOver(0));
}
