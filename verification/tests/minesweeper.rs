use icarus::minesweeper::{field_command, level_config, FieldCommand, FieldKeys, GameState, Minefield, Tile};

fn field_with_mine_at(mine: usize) -> Minefield {
    let mut tiles = vec![Tile::Clear; 12];
    tiles[mine] = Tile::Mine;
    Minefield { tiles_x: 4, tiles_y: 3, mines_left: 1, state: GameState::Playing, tiles }
}

#[test]
fn neighbours_in_index_order() {
    let f = field_with_mine_at(10);
    let n = f.get_neighbors(1, 1);
    assert_eq!(n.iter().map(|p| p.0).collect::<Vec<_>>(), vec![0, 1, 2, 4, 5, 6, 8, 9, 10]);
    assert_eq!(n[8].1, Tile::Mine);
    let corner = f.get_neighbors(0, 3);
    assert_eq!(corner.iter().map(|p| p.0).collect::<Vec<_>>(), vec![2, 3, 6, 7]);
    assert!(f.get_neighbors(-2, 0).is_empty());
}

#[test]
fn uncovering_opens_the_area_without_mines() {
    let mut f = field_with_mine_at(10);
    f.activate_tile(0);
    assert_eq!(
        f.tiles,
        vec![
            Tile::Neighbors(0), Tile::Neighbors(0), Tile::Neighbors(0), Tile::Neighbors(0),
            Tile::Neighbors(0), Tile::Neighbors(1), Tile::Neighbors(1), Tile::Neighbors(1),
            Tile::Neighbors(0), Tile::Neighbors(1), Tile::Mine, Tile::Clear,
        ]
    );
    assert_eq!(f.state, GameState::Playing);
    f.activate_tile(11);
    assert_eq!(f.tiles[11], Tile::Neighbors(1));
    assert_eq!(f.state, GameState::Win);
}

#[test]
fn uncovering_a_counted_cell_opens_it_alone() {
    let mut f = field_with_mine_at(10);
    f.activate_tile(6);
    assert_eq!(f.tiles[6], Tile::Neighbors(1));
    assert_eq!(f.tiles.iter().filter(|t| **t == Tile::Clear).count(), 10);
    assert_eq!(f.state, GameState::Playing);
}

#[test]
fn flags_count_as_mines_and_stay() {
    let mut f = field_with_mine_at(10);
    f.toggle_flag(10);
    assert_eq!(f.tiles[10], Tile::Flagged(true));
    assert_eq!(f.mines_left, 0);
    f.activate_tile(0);
    assert_eq!(f.tiles[9], Tile::Neighbors(1));
    assert_eq!(f.tiles[10], Tile::Flagged(true));
    f.activate_tile(10);
    assert_eq!(f.tiles[10], Tile::Flagged(true));
    f.toggle_flag(10);
    assert_eq!(f.tiles[10], Tile::Mine);
    assert_eq!(f.mines_left, 1);
    f.toggle_flag(3);
    assert_eq!(f.tiles[3], Tile::Neighbors(0));
    assert_eq!(f.mines_left, 1);
}

#[test]
fn uncovering_a_mine_loses_and_shows_all_mines() {
    let mut f = field_with_mine_at(10);
    f.tiles[1] = Tile::Mine;
    f.tiles[2] = Tile::Flagged(false);
    f.activate_tile(10);
    assert_eq!(f.state, GameState::GameOver);
    assert_eq!(f.tiles[10], Tile::MineExploded);
    assert_eq!(f.tiles[1], Tile::MineShown);
    assert_eq!(f.tiles[2], Tile::Flagged(false));
    assert_eq!(f.tiles[0], Tile::Clear);
}

fn keys() -> FieldKeys {
    FieldKeys { quit: false, restart: false, menu: false, select: false, up: false, down: false }
}

#[test]
fn level_sizes() {
    assert_eq!(level_config(0), (9, 9, 10));
    assert_eq!(level_config(1), (16, 16, 40));
    assert_eq!(level_config(2), (30, 16, 99));
}

#[test]
fn a_new_field_is_clear() {
    let f = Minefield::new(2);
    assert_eq!((f.tiles_x, f.tiles_y, f.mines_left), (30, 16, 99));
    assert_eq!(f.tiles.len(), 480);
    assert!(f.tiles.iter().all(|t| *t == Tile::Clear));
    assert_eq!(f.state, GameState::Menu(0));
}

#[test]
fn placing_mines() {
    let mut f = Minefield::new(0);
    assert!(f.place_mine(11, 22));
    assert_eq!(f.tiles[2 * 9 + 4], Tile::Mine);
    assert!(!f.place_mine(2, 4));
    assert!(f.place_mine(0, 0));
    assert_eq!(f.tiles.iter().filter(|t| **t == Tile::Mine).count(), 2);
    assert_eq!(f.mines_left, 10);
    let mut placed = 0;
    let mut r = 7usize;
    while placed < 8 {
        r = r.wrapping_mul(1103515245).wrapping_add(12345);
        let c = r.wrapping_mul(31).wrapping_add(7);
        if f.place_mine(r >> 8, c >> 8) {
            placed += 1;
        }
    }
    assert_eq!(f.tiles.iter().filter(|t| **t == Tile::Mine).count(), 10);
}

#[test]
fn keys_in_the_menu() {
    let menu = GameState::Menu(1);
    assert_eq!(field_command(menu, 0, FieldKeys { down: true, ..keys() }), FieldCommand::Go(GameState::Menu(2)));
    assert_eq!(
        field_command(GameState::Menu(2), 0, FieldKeys { down: true, ..keys() }),
        FieldCommand::Go(GameState::Menu(2))
    );
    assert_eq!(field_command(menu, 0, FieldKeys { up: true, ..keys() }), FieldCommand::Go(GameState::Menu(0)));
    assert_eq!(
        field_command(GameState::Menu(0), 0, FieldKeys { up: true, ..keys() }),
        FieldCommand::Go(GameState::Menu(0))
    );
    assert_eq!(
        field_command(menu, 0, FieldKeys { up: true, down: true, ..keys() }),
        FieldCommand::Go(GameState::Menu(2))
    );
    assert_eq!(field_command(menu, 0, FieldKeys { select: true, ..keys() }), FieldCommand::NewField(1, true));
    assert_eq!(field_command(menu, 0, keys()), FieldCommand::Go(menu));
}

#[test]
fn keys_while_playing() {
    let playing = GameState::Playing;
    assert_eq!(field_command(playing, 2, FieldKeys { quit: true, restart: true, ..keys() }), FieldCommand::Quit);
    assert_eq!(field_command(playing, 2, FieldKeys { restart: true, ..keys() }), FieldCommand::NewField(2, true));
    assert_eq!(field_command(GameState::Win, 1, FieldKeys { menu: true, ..keys() }), FieldCommand::NewField(1, false));
    assert_eq!(field_command(playing, 2, FieldKeys { down: true, select: true, ..keys() }), FieldCommand::Go(playing));
}
