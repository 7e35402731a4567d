use icarus::color::{Color, CYAN, DARK_BLUE, DARK_GREY, GREEN, PURPLE, RED, YELLOW};
use icarus::tetris::{
    clear_row, drop_tick, hard_drop, land_piece, lock_piece, new_board, rotate_piece, row_is_complete, shift_left,
    shift_right, spawn_piece, Piece, Tile,
};

fn empty_board() -> Vec<Tile> {
    let mut board = vec![];
    for y in 0..20 {
        for x in 0..10 {
            board.push(Tile::new(x, y, Color::from_hex(DARK_GREY)));
        }
    }
    board
}

fn positions(p: &Piece) -> Vec<(usize, usize)> {
    p.tiles.iter().map(|t| t.pos).collect()
}

#[test]
fn spawned_pieces() {
    let bar = spawn_piece(0);
    assert_eq!(positions(&bar), vec![(3, 0), (4, 0), (5, 0), (6, 0)]);
    assert_eq!(bar.tiles[0].color, Color::from_hex(CYAN));
    let hook = spawn_piece(8);
    assert_eq!(positions(&hook), vec![(4, 0), (4, 1), (5, 1), (6, 1)]);
    assert_eq!(hook.tiles[3].color, Color::from_hex(DARK_BLUE));
    let square = spawn_piece(5);
    assert_eq!(positions(&square), vec![(4, 0), (5, 0), (4, 1), (5, 1)]);
    assert_eq!(square.tiles[0].color, Color::from_hex(YELLOW));
    let tee = spawn_piece(6);
    assert_eq!(positions(&tee), vec![(5, 0), (4, 1), (5, 1), (6, 1)]);
    assert_eq!(tee.tiles[0].color, Color::from_hex(PURPLE));
    for k in 0..7 {
        assert!(spawn_piece(k).is_valid(&empty_board()));
    }
}

#[test]
fn validity_on_the_board() {
    let mut board = empty_board();
    let piece = spawn_piece(3);
    assert!(piece.is_valid(&board));
    board[15] = Tile::new(5, 1, Color::from_hex(RED));
    assert!(!piece.is_valid(&board));
    let off = Piece { tiles: vec![Tile::new(10, 0, Color::from_hex(RED))] };
    assert!(!off.is_valid(&empty_board()));
    let low = Piece { tiles: vec![Tile::new(0, 20, Color::from_hex(RED))] };
    assert!(!low.is_valid(&empty_board()));
    assert!(Tile::new(0, 0, Color::from_hex(DARK_GREY)).is_empty());
    assert!(!Tile::new(0, 0, Color::from_hex(RED)).is_empty());
}

#[test]
fn turning_pieces() {
    let c = Color::from_hex(CYAN);
    let mut bar = Piece { tiles: vec![Tile::new(3, 5, c), Tile::new(4, 5, c), Tile::new(5, 5, c), Tile::new(6, 5, c)] };
    rotate_piece(&mut bar);
    assert_eq!(positions(&bar), vec![(5, 3), (5, 4), (5, 5), (5, 6)]);
    rotate_piece(&mut bar);
    assert_eq!(positions(&bar), vec![(3, 5), (4, 5), (5, 5), (6, 5)]);

    let t = Color::from_hex(PURPLE);
    let mut tee = Piece { tiles: vec![Tile::new(5, 4, t), Tile::new(4, 5, t), Tile::new(5, 5, t), Tile::new(6, 5, t)] };
    rotate_piece(&mut tee);
    assert_eq!(positions(&tee), vec![(6, 5), (5, 4), (5, 5), (5, 6)]);

    let y = Color::from_hex(YELLOW);
    let mut square = Piece { tiles: vec![Tile::new(4, 0, y), Tile::new(5, 0, y), Tile::new(4, 1, y), Tile::new(5, 1, y)] };
    rotate_piece(&mut square);
    assert_eq!(positions(&square), vec![(4, 0), (5, 0), (4, 1), (5, 1)]);
}

fn colors_of_row(board: &[Tile], row: usize) -> Vec<Color> {
    (0..10).map(|x| board[row * 10 + x].color).collect()
}

fn fill_row(board: &mut Vec<Tile>, row: usize, color: Color) {
    for x in 0..10 {
        board[row * 10 + x].color = color;
    }
}

#[test]
fn the_new_board_is_empty() {
    let board = new_board();
    assert_eq!(board.len(), 200);
    assert_eq!(board, empty_board());
    assert_eq!(board[57].pos, (7, 5));
    assert!(board.iter().all(|t| t.is_empty()));
}

#[test]
fn complete_rows() {
    let red = Color::from_hex(RED);
    let mut board = new_board();
    assert!(!row_is_complete(&board, 19));
    fill_row(&mut board, 19, red);
    assert!(row_is_complete(&board, 19));
    assert!(!row_is_complete(&board, 18));
    board[19 * 10 + 4].color = Color::from_hex(DARK_GREY);
    assert!(!row_is_complete(&board, 19));
    assert!(!row_is_complete(&board, 25));
}

#[test]
fn clearing_a_row_collapses_the_columns_above() {
    let (red, green, yellow) = (Color::from_hex(RED), Color::from_hex(GREEN), Color::from_hex(YELLOW));
    let bg = Color::from_hex(DARK_GREY);
    let mut board = new_board();
    fill_row(&mut board, 19, red);
    board[15 * 10].color = red;
    board[17 * 10].color = green;
    board[18 * 10 + 3].color = yellow;
    clear_row(&mut board, 19);
    let mut expected = vec![bg; 10];
    expected[0] = red;
    expected[3] = yellow;
    assert_eq!(colors_of_row(&board, 19), expected);
    for row in 0..19 {
        assert_eq!(colors_of_row(&board, row), vec![bg; 10]);
    }
    assert_eq!(board[195].pos, (5, 19));
}

#[test]
fn clearing_a_row_keeps_the_rows_below() {
    let (red, green) = (Color::from_hex(RED), Color::from_hex(GREEN));
    let bg = Color::from_hex(DARK_GREY);
    let mut board = new_board();
    fill_row(&mut board, 18, red);
    board[19 * 10 + 2].color = green;
    board[10 * 10 + 6].color = green;
    clear_row(&mut board, 18);
    let mut row18 = vec![bg; 10];
    row18[6] = green;
    assert_eq!(colors_of_row(&board, 18), row18);
    let mut row19 = vec![bg; 10];
    row19[2] = green;
    assert_eq!(colors_of_row(&board, 19), row19);
    assert_eq!(colors_of_row(&board, 10), vec![bg; 10]);
}

#[test]
fn locking_paints_the_piece() {
    let mut board = new_board();
    let piece = spawn_piece(6);
    lock_piece(&mut board, &piece);
    let purple = Color::from_hex(PURPLE);
    assert_eq!(board[5].color, purple);
    assert_eq!(board[14].color, purple);
    assert_eq!(board[15].color, purple);
    assert_eq!(board[16].color, purple);
    assert_eq!(board.iter().filter(|t| !t.is_empty()).count(), 4);
    assert_eq!(board[14].pos, (4, 1));
}

#[test]
fn landing_clears_the_completed_row() {
    let (red, cyan) = (Color::from_hex(RED), Color::from_hex(CYAN));
    let bg = Color::from_hex(DARK_GREY);
    let mut board = new_board();
    for x in 0..6 {
        board[190 + x].color = red;
    }
    let bar = Piece { tiles: vec![Tile::new(6, 19, cyan), Tile::new(7, 19, cyan), Tile::new(8, 19, cyan), Tile::new(9, 19, cyan)] };
    land_piece(&mut board, &bar);
    assert_eq!(colors_of_row(&board, 19), vec![bg; 10]);
    assert!(board.iter().all(|t| t.is_empty()));
}

#[test]
fn a_tick_lowers_the_piece() {
    let mut board = new_board();
    let mut piece = spawn_piece(0);
    drop_tick(&mut board, &mut piece, 3);
    assert_eq!(positions(&piece), vec![(3, 1), (4, 1), (5, 1), (6, 1)]);
    assert_eq!(board, new_board());
}

#[test]
fn a_tick_lands_the_piece_at_the_bottom() {
    let mut board = new_board();
    let c = Color::from_hex(CYAN);
    let mut piece = Piece { tiles: vec![Tile::new(3, 19, c), Tile::new(4, 19, c), Tile::new(5, 19, c), Tile::new(6, 19, c)] };
    drop_tick(&mut board, &mut piece, 5);
    assert_eq!(board[193].color, c);
    assert_eq!(board[196].color, c);
    assert_eq!(board.iter().filter(|t| !t.is_empty()).count(), 4);
    assert_eq!(positions(&piece), vec![(4, 0), (5, 0), (4, 1), (5, 1)]);
    assert_eq!(piece.tiles[0].color, Color::from_hex(YELLOW));
}

#[test]
fn a_tick_lands_the_piece_on_another() {
    let mut board = new_board();
    board[4 * 10 + 4].color = Color::from_hex(RED);
    let mut piece = spawn_piece(0);
    for _ in 0..3 {
        drop_tick(&mut board, &mut piece, 1);
    }
    assert_eq!(positions(&piece), vec![(3, 3), (4, 3), (5, 3), (6, 3)]);
    drop_tick(&mut board, &mut piece, 1);
    assert_eq!(board[3 * 10 + 4].color, Color::from_hex(CYAN));
    assert_eq!(positions(&piece), vec![(4, 0), (4, 1), (5, 1), (6, 1)]);
}

#[test]
fn sideways_moves() {
    let c = Color::from_hex(RED);
    let mut piece = spawn_piece(3);
    shift_left(&mut piece);
    assert_eq!(positions(&piece), vec![(3, 0), (4, 0), (4, 1), (5, 1)]);
    shift_right(&mut piece);
    shift_right(&mut piece);
    assert_eq!(positions(&piece), vec![(5, 0), (6, 0), (6, 1), (7, 1)]);
    let mut edge = Piece { tiles: vec![Tile::new(0, 4, c), Tile::new(1, 4, c)] };
    shift_left(&mut edge);
    assert_eq!(positions(&edge), vec![(0, 4), (1, 4)]);
    let mut right = Piece { tiles: vec![Tile::new(8, 4, c), Tile::new(9, 4, c)] };
    shift_right(&mut right);
    assert_eq!(positions(&right), vec![(8, 4), (9, 4)]);
    let mut bottom = Piece { tiles: vec![Tile::new(4, 19, c)] };
    shift_left(&mut bottom);
    shift_right(&mut bottom);
    assert_eq!(positions(&bottom), vec![(4, 19)]);
    let mut past = Piece { tiles: vec![Tile::new(12, 4, c)] };
    shift_right(&mut past);
    assert_eq!(positions(&past), vec![(9, 4)]);
}

#[test]
fn hard_drops() {
    let mut board = new_board();
    let mut piece = spawn_piece(2);
    hard_drop(&board, &mut piece);
    assert_eq!(positions(&piece), vec![(6, 18), (6, 19), (5, 19), (4, 19)]);
    board[12 * 10 + 5].color = Color::from_hex(GREEN);
    let mut piece = spawn_piece(2);
    hard_drop(&board, &mut piece);
    assert_eq!(positions(&piece), vec![(6, 10), (6, 11), (5, 11), (4, 11)]);
    let mut resting = spawn_piece(2);
    resting.tiles[1].pos = (6, 19);
    hard_drop(&board, &mut resting);
    assert_eq!(resting.tiles[1].pos, (6, 19));
}

#[test]
fn turns_give_the_piece_back() {
    for k in 0..7 {
        let mut piece = spawn_piece(k);
        for t in piece.tiles.iter_mut() {
            t.pos = (t.pos.0 + 3, t.pos.1 + 4);
        }
        let start = piece.clone();
        let mut turns = 0;
        loop {
            rotate_piece(&mut piece);
            turns += 1;
            assert_eq!(piece.tiles.len(), 4);
            assert_eq!(piece.tiles[2], start.tiles[2]);
            assert!(piece.tiles.iter().zip(start.tiles.iter()).all(|(a, b)| a.color == b.color));
            if piece.tiles == start.tiles {
                break;
            }
            assert!(turns < 4);
        }
        let expected = match k {
            0 | 3 | 4 => 2,
            5 => 1,
            _ => 4,
        };
        assert_eq!(turns, expected, "piece kind {}", k);
    }
}
