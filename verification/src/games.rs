//! The board rules of the example games: cell positions and indices on the
//! falling-blocks board, the walls and bounds of the snake's field, and the
//! moves of the noughts-and-crosses opponent.
use vstd::prelude::*;

verus! {

/// The width of the falling-blocks board, in cells.
pub const TILES_X: usize = 10;

/// The height of the falling-blocks board, in cells.
pub const TILES_Y: usize = 20;

/// Whether the cell at `pos` (row, column) lies on the outer edge of a field
/// of `rows` by `cols` cells.
pub fn is_border(pos: (usize, usize), rows: usize, cols: usize) -> (b: bool)
    requires
        pos.0 == 0 || rows >= 1,
        pos.0 == 0 || pos.0 == rows - 1 || pos.1 == 0 || cols >= 1,
    ensures
        b == (pos.0 == 0 || pos.0 == rows - 1 || pos.1 == 0 || pos.1 == cols - 1),
{
    let (row, col) = pos;
    row == 0 || row == rows - 1 || col == 0 || col == cols - 1
}

/// Whether `pos` (row, column) lies inside a field of `rows` by `cols` cells,
/// the sizes taken as signed numbers.
pub fn is_valid_pos(pos: (isize, isize), rows: usize, cols: usize) -> (b: bool)
    ensures
        b == (0 <= pos.1 < cols as isize && 0 <= pos.0 < rows as isize),
{
    let (row, col) = pos;
    let c = cols as isize;
    let r = rows as isize;
    0 <= col && col < c && 0 <= row && row < r
}

/// The way the snake heads.
#[derive(Debug, Copy, Clone, PartialEq, Eq, Structural)]
pub enum Direction {
    Left,
    Down,
    Right,
    Up,
}

/// The cell (row, column) next to `front` in direction `dir`, as signed numbers.
pub open spec fn next_pos(front: (usize, usize), dir: Direction) -> (int, int) {
    let f = (front.0 as isize as int, front.1 as isize as int);
    match dir {
        Direction::Left => (f.0, f.1 - 1),
        Direction::Right => (f.0, f.1 + 1),
        Direction::Down => (f.0 + 1, f.1),
        Direction::Up => (f.0 - 1, f.1),
    }
}

/// Whether the snake, whose head is at `front` and whose segments lie at
/// `body` (head included), can move one cell in direction `dir` on a field
/// of `rows` by `cols` cells: the cell must be inside the field and not part
/// of the snake.
pub fn is_next_move_valid(front: (usize, usize), body: &[(usize, usize)], dir: Direction, rows: usize, cols: usize) -> (b: bool)
    requires
        isize::MIN < next_pos(front, dir).0 < isize::MAX,
        isize::MIN < next_pos(front, dir).1 < isize::MAX,
    ensures
        b == ({
            let p = next_pos(front, dir);
            &&& 0 <= p.1 < cols as isize && 0 <= p.0 < rows as isize
            &&& !body@.contains((p.0 as isize as usize, p.1 as isize as usize))
        }),
{
    let f = (front.0 as isize, front.1 as isize);
    let new_pos = match dir {
        Direction::Left => (f.0, f.1 - 1),
        Direction::Right => (f.0, f.1 + 1),
        Direction::Down => (f.0 + 1, f.1),
        Direction::Up => (f.0 - 1, f.1),
    };
    if !is_valid_pos(new_pos, rows, cols) {
        return false;
    }
    let cell = (new_pos.0 as usize, new_pos.1 as usize);
    let ghost p = next_pos(front, dir);
    assert(new_pos.0 as int == p.0 && new_pos.1 as int == p.1);
    assert(cell == (p.0 as isize as usize, p.1 as isize as usize));
    let mut i: usize = 0;
    while i < body.len()
        invariant
            i <= body.len(),
            p == next_pos(front, dir),
            cell == (p.0 as isize as usize, p.1 as isize as usize),
            forall|j: int| 0 <= j < i ==> body@[j] != cell,
        decreases body.len() - i,
    {
        if body[i].0 == cell.0 && body[i].1 == cell.1 {
            assert(body@[i as int] == cell);
            assert(body@.contains((p.0 as isize as usize, p.1 as isize as usize)));
            return false;
        }
        i = i + 1;
    }
    true
}

/// The index of the cell in column `x` and row `y` of the board, rows first.
pub fn pos_to_idx(x: usize, y: usize) -> (i: usize)
    requires
        y * TILES_X + x <= usize::MAX,
    ensures
        i == y * TILES_X + x,
{
    y * TILES_X + x
}

/// The column and row of the cell with index `idx`.
pub fn idx_to_pos(idx: usize) -> (p: (usize, usize))
    ensures
        p.0 == idx % TILES_X,
        p.1 == idx / TILES_X,
{
    let x = idx % TILES_X;
    let y = idx / TILES_X;
    (x, y)
}

/// A cell's index gives back its column and row.
pub proof fn lemma_pos_idx_roundtrip(x: usize, y: usize)
    requires
        x < TILES_X,
        y * TILES_X + x <= usize::MAX,
    ensures
        (y * TILES_X + x) % (TILES_X as int) == x,
        (y * TILES_X + x) / (TILES_X as int) == y,
{
    assert((y * 10 + x) % 10 == x && (y * 10 + x) / 10 == y) by (nonlinear_arith)
        requires
            x < 10,
    ;
}

/// A cell's column and row give back its index.
pub proof fn lemma_idx_pos_roundtrip(idx: usize)
    ensures
        (idx / TILES_X) * TILES_X + idx % TILES_X == idx,
        idx % TILES_X < TILES_X,
{
    assert((idx / 10) * 10 + idx % 10 == idx && idx % 10 < 10) by (nonlinear_arith);
}

/// The checks that find a winning move, in the order they are made: each is
/// (the empty cell to take, the two cells the player must already hold). For
/// each row, column and diagonal in turn (rows top to bottom, columns left
/// to right, then the diagonal from the top-left corner and the one from the
/// top-right corner), its last, middle and first cell are tried.
pub open spec fn win_check(k: int) -> (int, int, int) {
    if 0 <= k < 9 {
        let r = k / 3;
        let m = k % 3;
        if m == 0 {
            (3 * r + 2, 3 * r, 3 * r + 1)
        } else if m == 1 {
            (3 * r + 1, 3 * r, 3 * r + 2)
        } else {
            (3 * r, 3 * r + 1, 3 * r + 2)
        }
    } else if 9 <= k < 18 {
        let c = (k - 9) / 3;
        let m = (k - 9) % 3;
        if m == 0 {
            (6 + c, c, 3 + c)
        } else if m == 1 {
            (3 + c, c, 6 + c)
        } else {
            (c, 3 + c, 6 + c)
        }
    } else if k == 18 {
        (8, 0, 4)
    } else if k == 19 {
        (4, 0, 8)
    } else if k == 20 {
        (0, 4, 8)
    } else if k == 21 {
        (6, 2, 4)
    } else if k == 22 {
        (4, 2, 6)
    } else {
        (2, 4, 6)
    }
}

/// Check `k` finds a winning move for `player` on `tiles`.
pub open spec fn win_check_hits(tiles: Seq<Option<usize>>, player: usize, k: int) -> bool {
    let (t, a, b) = win_check(k);
    tiles[t] is None && tiles[a] == Some(player) && tiles[b] == Some(player)
}

/// The cell that the first successful check from check `k` on takes, if any.
pub open spec fn win_tile_from(tiles: Seq<Option<usize>>, player: usize, k: int) -> Option<int>
    decreases 24 - k,
{
    if k < 0 || k >= 24 {
        None
    } else if win_check_hits(tiles, player, k) {
        Some(win_check(k).0)
    } else {
        win_tile_from(tiles, player, k + 1)
    }
}

/// The cell that the first successful check takes, if any.
pub open spec fn win_tile(tiles: Seq<Option<usize>>, player: usize) -> Option<int> {
    win_tile_from(tiles, player, 0)
}

/// A cell that completes a line of three for `player` on the noughts-and-crosses
/// board `tiles` (each cell empty or the number of the player holding it):
/// the one that the first successful check of `win_check` takes.
pub fn get_win_tile(tiles: &[Option<usize>; 9], player: usize) -> (r: Option<usize>)
    ensures
        win_tile(tiles@, player) == (match r {
            Some(t) => Some(t as int),
            None => None,
        }),
        r matches Some(t) ==> t < 9 && completes_line(tiles@, player, t as int),
        r is None <==> forall|t: int| !#[trigger] completes_line(tiles@, player, t),
{
    proof {
        lemma_win_tile_completes_line(tiles@, player);
    }
    let mut row: usize = 0;
    while row < 3
        invariant
            row <= 3,
            win_tile(tiles@, player) == win_tile_from(tiles@, player, 3 * row as int),
            win_tile(tiles@, player) matches Some(t) ==> completes_line(tiles@, player, t),
            win_tile(tiles@, player) is None <==> forall|t: int| !#[trigger] completes_line(tiles@, player, t),
        decreases 3 - row,
    {
        assert(win_check(3 * row as int) == (3 * row + 2, 3 * row, 3 * row + 1));
        assert(win_check(3 * row + 1) == (3 * row + 1, 3 * row, 3 * row + 2));
        assert(win_check(3 * row + 2) == (3 * row, 3 * row + 1, 3 * row + 2));
        if tiles[row * 3] == Some(player) && tiles[row * 3 + 1] == Some(player) && tiles[row * 3 + 2] == None {
            return Some(row * 3 + 2);
        }
        assert(win_tile_from(tiles@, player, 3 * row as int) == win_tile_from(tiles@, player, 3 * row as int + 1));
        if tiles[row * 3] == Some(player) && tiles[row * 3 + 1] == None && tiles[row * 3 + 2] == Some(player) {
            return Some(row * 3 + 1);
        }
        assert(win_tile_from(tiles@, player, 3 * row + 1) == win_tile_from(tiles@, player, 3 * row + 1 + 1));
        if tiles[row * 3] == None && tiles[row * 3 + 1] == Some(player) && tiles[row * 3 + 2] == Some(player) {
            return Some(row * 3);
        }
        assert(win_tile_from(tiles@, player, 3 * row + 2) == win_tile_from(tiles@, player, 3 * row + 2 + 1));
        row = row + 1;
    }
    let mut col: usize = 0;
    while col < 3
        invariant
            col <= 3,
            win_tile(tiles@, player) == win_tile_from(tiles@, player, 9 + 3 * col as int),
            win_tile(tiles@, player) matches Some(t) ==> completes_line(tiles@, player, t),
            win_tile(tiles@, player) is None <==> forall|t: int| !#[trigger] completes_line(tiles@, player, t),
        decreases 3 - col,
    {
        assert(win_check(9 + 3 * col) == (6 + col, col as int, 3 + col));
        assert(win_check(10 + 3 * col) == (3 + col, col as int, 6 + col));
        assert(win_check(11 + 3 * col) == (col as int, 3 + col, 6 + col));
        if tiles[col] == Some(player) && tiles[3 + col] == Some(player) && tiles[2 * 3 + col] == None {
            return Some(2 * 3 + col);
        }
        assert(win_tile_from(tiles@, player, 9 + 3 * col as int) == win_tile_from(tiles@, player, 9 + 3 * col as int + 1));
        if tiles[col] == Some(player) && tiles[3 + col] == None && tiles[2 * 3 + col] == Some(player) {
            return Some(3 + col);
        }
        assert(win_tile_from(tiles@, player, 10 + 3 * col as int) == win_tile_from(tiles@, player, 10 + 3 * col as int + 1));
        if tiles[col] == None && tiles[3 + col] == Some(player) && tiles[2 * 3 + col] == Some(player) {
            return Some(col);
        }
        assert(win_tile_from(tiles@, player, 11 + 3 * col as int) == win_tile_from(tiles@, player, 11 + 3 * col as int + 1));
        col = col + 1;
    }
    if tiles[0] == Some(player) && tiles[4] == Some(player) && tiles[8] == None {
        return Some(8);
    }
    assert(win_tile_from(tiles@, player, 18int) == win_tile_from(tiles@, player, 18int + 1));
    if tiles[0] == Some(player) && tiles[4] == None && tiles[8] == Some(player) {
        return Some(4);
    }
    assert(win_tile_from(tiles@, player, 19int) == win_tile_from(tiles@, player, 19int + 1));
    if tiles[0] == None && tiles[4] == Some(player) && tiles[8] == Some(player) {
        return Some(0);
    }
    assert(win_tile_from(tiles@, player, 20int) == win_tile_from(tiles@, player, 20int + 1));
    if tiles[2] == Some(player) && tiles[4] == Some(player) && tiles[6] == None {
        return Some(6);
    }
    assert(win_tile_from(tiles@, player, 21int) == win_tile_from(tiles@, player, 21int + 1));
    if tiles[2] == Some(player) && tiles[4] == None && tiles[6] == Some(player) {
        return Some(4);
    }
    assert(win_tile_from(tiles@, player, 22int) == win_tile_from(tiles@, player, 22int + 1));
    if tiles[2] == None && tiles[4] == Some(player) && tiles[6] == Some(player) {
        return Some(2);
    }
    assert(win_tile_from(tiles@, player, 23int) == win_tile_from(tiles@, player, 23int + 1));
    None
}

/// Cells `a`, `b` and `c` of the 3 by 3 board, numbered row by row, are
/// three different cells of one row, of one column, or of one of the two
/// diagonals.
pub open spec fn in_line(a: int, b: int, c: int) -> bool {
    &&& 0 <= a < 9 && 0 <= b < 9 && 0 <= c < 9
    &&& a != b && b != c && a != c
    &&& {
        ||| (a / 3 == b / 3 && b / 3 == c / 3)
        ||| (a % 3 == b % 3 && b % 3 == c % 3)
        ||| (a / 3 == a % 3 && b / 3 == b % 3 && c / 3 == c % 3)
        ||| (a / 3 + a % 3 == 2 && b / 3 + b % 3 == 2 && c / 3 + c % 3 == 2)
    }
}

proof fn lemma_in_line_cases(a: int, b: int, c: int)
    requires
        in_line(a, b, c),
    ensures
        ({
        ||| (a == 0 && b == 1 && c == 2)
        ||| (a == 0 && b == 2 && c == 1)
        ||| (a == 0 && b == 3 && c == 6)
        ||| (a == 0 && b == 4 && c == 8)
        ||| (a == 0 && b == 6 && c == 3)
        ||| (a == 0 && b == 8 && c == 4)
        ||| (a == 1 && b == 0 && c == 2)
        ||| (a == 1 && b == 2 && c == 0)
        ||| (a == 1 && b == 4 && c == 7)
        ||| (a == 1 && b == 7 && c == 4)
        ||| (a == 2 && b == 0 && c == 1)
        ||| (a == 2 && b == 1 && c == 0)
        ||| (a == 2 && b == 4 && c == 6)
        ||| (a == 2 && b == 5 && c == 8)
        ||| (a == 2 && b == 6 && c == 4)
        ||| (a == 2 && b == 8 && c == 5)
        ||| (a == 3 && b == 0 && c == 6)
        ||| (a == 3 && b == 4 && c == 5)
        ||| (a == 3 && b == 5 && c == 4)
        ||| (a == 3 && b == 6 && c == 0)
        ||| (a == 4 && b == 0 && c == 8)
        ||| (a == 4 && b == 1 && c == 7)
        ||| (a == 4 && b == 2 && c == 6)
        ||| (a == 4 && b == 3 && c == 5)
        ||| (a == 4 && b == 5 && c == 3)
        ||| (a == 4 && b == 6 && c == 2)
        ||| (a == 4 && b == 7 && c == 1)
        ||| (a == 4 && b == 8 && c == 0)
        ||| (a == 5 && b == 2 && c == 8)
        ||| (a == 5 && b == 3 && c == 4)
        ||| (a == 5 && b == 4 && c == 3)
        ||| (a == 5 && b == 8 && c == 2)
        ||| (a == 6 && b == 0 && c == 3)
        ||| (a == 6 && b == 2 && c == 4)
        ||| (a == 6 && b == 3 && c == 0)
        ||| (a == 6 && b == 4 && c == 2)
        ||| (a == 6 && b == 7 && c == 8)
        ||| (a == 6 && b == 8 && c == 7)
        ||| (a == 7 && b == 1 && c == 4)
        ||| (a == 7 && b == 4 && c == 1)
        ||| (a == 7 && b == 6 && c == 8)
        ||| (a == 7 && b == 8 && c == 6)
        ||| (a == 8 && b == 0 && c == 4)
        ||| (a == 8 && b == 2 && c == 5)
        ||| (a == 8 && b == 4 && c == 0)
        ||| (a == 8 && b == 5 && c == 2)
        ||| (a == 8 && b == 6 && c == 7)
        ||| (a == 8 && b == 7 && c == 6)
        }),
{
}

/// The check that finds the cell `t` of the line `t`, `a`, `b`.
proof fn lemma_check_for_line(t: int, a: int, b: int) -> (k: int)
    requires
        in_line(t, a, b),
    ensures
        0 <= k < 24,
        win_check(k).0 == t,
        (win_check(k).1 == a && win_check(k).2 == b) || (win_check(k).1 == b && win_check(k).2 == a),
{
    lemma_in_line_cases(t, a, b);
    if t == 0 && a == 1 && b == 2 {
        assert(win_check(2) == (0int, 1int, 2int));
        2
    } else if t == 0 && a == 2 && b == 1 {
        assert(win_check(2) == (0int, 1int, 2int));
        2
    } else if t == 0 && a == 3 && b == 6 {
        assert(win_check(11) == (0int, 3int, 6int));
        11
    } else if t == 0 && a == 4 && b == 8 {
        assert(win_check(20) == (0int, 4int, 8int));
        20
    } else if t == 0 && a == 6 && b == 3 {
        assert(win_check(11) == (0int, 3int, 6int));
        11
    } else if t == 0 && a == 8 && b == 4 {
        assert(win_check(20) == (0int, 4int, 8int));
        20
    } else if t == 1 && a == 0 && b == 2 {
        assert(win_check(1) == (1int, 0int, 2int));
        1
    } else if t == 1 && a == 2 && b == 0 {
        assert(win_check(1) == (1int, 0int, 2int));
        1
    } else if t == 1 && a == 4 && b == 7 {
        assert(win_check(14) == (1int, 4int, 7int));
        14
    } else if t == 1 && a == 7 && b == 4 {
        assert(win_check(14) == (1int, 4int, 7int));
        14
    } else if t == 2 && a == 0 && b == 1 {
        assert(win_check(0) == (2int, 0int, 1int));
        0
    } else if t == 2 && a == 1 && b == 0 {
        assert(win_check(0) == (2int, 0int, 1int));
        0
    } else if t == 2 && a == 4 && b == 6 {
        assert(win_check(23) == (2int, 4int, 6int));
        23
    } else if t == 2 && a == 5 && b == 8 {
        assert(win_check(17) == (2int, 5int, 8int));
        17
    } else if t == 2 && a == 6 && b == 4 {
        assert(win_check(23) == (2int, 4int, 6int));
        23
    } else if t == 2 && a == 8 && b == 5 {
        assert(win_check(17) == (2int, 5int, 8int));
        17
    } else if t == 3 && a == 0 && b == 6 {
        assert(win_check(10) == (3int, 0int, 6int));
        10
    } else if t == 3 && a == 4 && b == 5 {
        assert(win_check(5) == (3int, 4int, 5int));
        5
    } else if t == 3 && a == 5 && b == 4 {
        assert(win_check(5) == (3int, 4int, 5int));
        5
    } else if t == 3 && a == 6 && b == 0 {
        assert(win_check(10) == (3int, 0int, 6int));
        10
    } else if t == 4 && a == 0 && b == 8 {
        assert(win_check(19) == (4int, 0int, 8int));
        19
    } else if t == 4 && a == 1 && b == 7 {
        assert(win_check(13) == (4int, 1int, 7int));
        13
    } else if t == 4 && a == 2 && b == 6 {
        assert(win_check(22) == (4int, 2int, 6int));
        22
    } else if t == 4 && a == 3 && b == 5 {
        assert(win_check(4) == (4int, 3int, 5int));
        4
    } else if t == 4 && a == 5 && b == 3 {
        assert(win_check(4) == (4int, 3int, 5int));
        4
    } else if t == 4 && a == 6 && b == 2 {
        assert(win_check(22) == (4int, 2int, 6int));
        22
    } else if t == 4 && a == 7 && b == 1 {
        assert(win_check(13) == (4int, 1int, 7int));
        13
    } else if t == 4 && a == 8 && b == 0 {
        assert(win_check(19) == (4int, 0int, 8int));
        19
    } else if t == 5 && a == 2 && b == 8 {
        assert(win_check(16) == (5int, 2int, 8int));
        16
    } else if t == 5 && a == 3 && b == 4 {
        assert(win_check(3) == (5int, 3int, 4int));
        3
    } else if t == 5 && a == 4 && b == 3 {
        assert(win_check(3) == (5int, 3int, 4int));
        3
    } else if t == 5 && a == 8 && b == 2 {
        assert(win_check(16) == (5int, 2int, 8int));
        16
    } else if t == 6 && a == 0 && b == 3 {
        assert(win_check(9) == (6int, 0int, 3int));
        9
    } else if t == 6 && a == 2 && b == 4 {
        assert(win_check(21) == (6int, 2int, 4int));
        21
    } else if t == 6 && a == 3 && b == 0 {
        assert(win_check(9) == (6int, 0int, 3int));
        9
    } else if t == 6 && a == 4 && b == 2 {
        assert(win_check(21) == (6int, 2int, 4int));
        21
    } else if t == 6 && a == 7 && b == 8 {
        assert(win_check(8) == (6int, 7int, 8int));
        8
    } else if t == 6 && a == 8 && b == 7 {
        assert(win_check(8) == (6int, 7int, 8int));
        8
    } else if t == 7 && a == 1 && b == 4 {
        assert(win_check(12) == (7int, 1int, 4int));
        12
    } else if t == 7 && a == 4 && b == 1 {
        assert(win_check(12) == (7int, 1int, 4int));
        12
    } else if t == 7 && a == 6 && b == 8 {
        assert(win_check(7) == (7int, 6int, 8int));
        7
    } else if t == 7 && a == 8 && b == 6 {
        assert(win_check(7) == (7int, 6int, 8int));
        7
    } else if t == 8 && a == 0 && b == 4 {
        assert(win_check(18) == (8int, 0int, 4int));
        18
    } else if t == 8 && a == 2 && b == 5 {
        assert(win_check(15) == (8int, 2int, 5int));
        15
    } else if t == 8 && a == 4 && b == 0 {
        assert(win_check(18) == (8int, 0int, 4int));
        18
    } else if t == 8 && a == 5 && b == 2 {
        assert(win_check(15) == (8int, 2int, 5int));
        15
    } else if t == 8 && a == 6 && b == 7 {
        assert(win_check(6) == (8int, 6int, 7int));
        6
    } else if t == 8 && a == 7 && b == 6 {
        assert(win_check(6) == (8int, 6int, 7int));
        6
    } else {
        assert(false);
        0
    }
}

proof fn lemma_checks_are_lines(k: int)
    requires
        0 <= k < 24,
    ensures
        in_line(win_check(k).0, win_check(k).1, win_check(k).2),
{
}

proof fn lemma_win_tile_from_facts(tiles: Seq<Option<usize>>, player: usize, k0: int)
    requires
        0 <= k0 <= 24,
    ensures
        win_tile_from(tiles, player, k0) matches Some(t) ==> exists|k: int|
            k0 <= k < 24 && #[trigger] win_check_hits(tiles, player, k) && win_check(k).0 == t,
        win_tile_from(tiles, player, k0) is None ==> forall|k: int|
            k0 <= k < 24 ==> !#[trigger] win_check_hits(tiles, player, k),
    decreases 24 - k0,
{
    if k0 < 24 {
        lemma_win_tile_from_facts(tiles, player, k0 + 1);
    }
}

/// Some row, column or diagonal has the cell `t` empty and its two other
/// cells held by `player`.
pub open spec fn completes_line(tiles: Seq<Option<usize>>, player: usize, t: int) -> bool {
    &&& 0 <= t < 9
    &&& tiles[t] is None
    &&& exists|a: int, b: int|
        #[trigger] in_line(t, a, b) && tiles[a] == Some(player) && tiles[b] == Some(player)
}

/// The winning move: a cell is found exactly when some row, column or
/// diagonal has two cells held by `player` and its third cell empty, and the
/// cell found is such a third cell.
pub proof fn lemma_win_tile_completes_line(tiles: Seq<Option<usize>>, player: usize)
    requires
        tiles.len() == 9,
    ensures
        win_tile(tiles, player) matches Some(t) ==> completes_line(tiles, player, t),
        win_tile(tiles, player) is None <==> forall|t: int| !#[trigger] completes_line(tiles, player, t),
{
    lemma_win_tile_from_facts(tiles, player, 0);
    if let Some(t) = win_tile(tiles, player) {
        let k = choose|k: int| 0 <= k < 24 && #[trigger] win_check_hits(tiles, player, k) && win_check(k).0 == t;
        lemma_checks_are_lines(k);
        let (_, a, b) = win_check(k);
        assert(in_line(t, a, b));
        assert(completes_line(tiles, player, t));
    } else {
        assert forall|t: int| !#[trigger] completes_line(tiles, player, t) by {
            if completes_line(tiles, player, t) {
                let (a, b) = choose|a: int, b: int|
                    #[trigger] in_line(t, a, b) && tiles[a] == Some(player) && tiles[b] == Some(player);
                let k = lemma_check_for_line(t, a, b);
                assert(win_check_hits(tiles, player, k));
            }
        }
    }
}

/// Three cells held by one player in a row, column or diagonal.
pub open spec fn held_line(t: Seq<Option<usize>>) -> bool {
    exists|a: int, b: int, c: int| #[trigger] in_line(a, b, c) && t[a] is Some && t[a] == t[b] && t[b] == t[c]
}

/// The board has a completed line (the condition on which `judge` declares a
/// win) exactly when some row, column or diagonal is held by one player.
pub proof fn lemma_line_complete_is_held_line(t: Seq<Option<usize>>)
    requires
        t.len() == 9,
    ensures
        line_complete(t) <==> held_line(t),
{
    if held_line(t) {
        let (a, b, c) = choose|a: int, b: int, c: int|
            #[trigger] in_line(a, b, c) && t[a] is Some && t[a] == t[b] && t[b] == t[c];
        lemma_in_line_cases(a, b, c);
    }
    if line_complete(t) {
        assert(in_line(0, 1, 2) && in_line(3, 4, 5) && in_line(6, 7, 8));
        assert(in_line(0, 3, 6) && in_line(1, 4, 7) && in_line(2, 5, 8));
        assert(in_line(0, 4, 8) && in_line(2, 4, 6));
    }
}

/// The board after `player` takes the first empty cell at or after cell `i`;
/// unchanged where there is none.
pub open spec fn naive_move_from(tiles: Seq<Option<usize>>, player: usize, i: int) -> Seq<Option<usize>>
    decreases tiles.len() - i,
{
    if i < 0 || i >= tiles.len() {
        tiles
    } else if tiles[i] is None {
        tiles.update(i, Some(player))
    } else {
        naive_move_from(tiles, player, i + 1)
    }
}

/// The board after `player` takes the first empty cell.
pub open spec fn naive_move(tiles: Seq<Option<usize>>, player: usize) -> Seq<Option<usize>> {
    naive_move_from(tiles, player, 0)
}

/// The board after `player` takes the first empty corner (top-left,
/// top-right, bottom-left, bottom-right), or else the first empty cell.
pub open spec fn corner_move(tiles: Seq<Option<usize>>, player: usize) -> Seq<Option<usize>> {
    if tiles[0] is None {
        tiles.update(0, Some(player))
    } else if tiles[2] is None {
        tiles.update(2, Some(player))
    } else if tiles[6] is None {
        tiles.update(6, Some(player))
    } else if tiles[8] is None {
        tiles.update(8, Some(player))
    } else {
        naive_move(tiles, player)
    }
}

/// The computer's move (it plays as player 1): complete its own line where
/// it can; else block the line of player 0; else take the bottom-right corner
/// where player 0 holds the cell above it or the cell left of it and the
/// corner is empty; else move as `corner_move` does for `player`.
pub open spec fn blocking_move(tiles: Seq<Option<usize>>, player: usize) -> Seq<Option<usize>> {
    if let Some(t) = win_tile(tiles, 1) {
        tiles.update(t, Some(1usize))
    } else if let Some(t) = win_tile(tiles, 0) {
        tiles.update(t, Some(1usize))
    } else if (tiles[5] == Some(0usize) || tiles[7] == Some(0usize)) && tiles[8] is None {
        tiles.update(8, Some(1usize))
    } else {
        corner_move(tiles, player)
    }
}

/// `player` takes the first empty cell of the board, if any.
pub fn place_naive(tiles: &mut [Option<usize>; 9], player: usize)
    ensures
        final(tiles)@ == naive_move(old(tiles)@, player),
{
    let ghost start = tiles@;
    let mut i: usize = 0;
    while i < 9
        invariant
            i <= 9,
            start.len() == 9,
            start == old(tiles)@,
            tiles@ == start,
            naive_move(start, player) == naive_move_from(start, player, i as int),
        decreases 9 - i,
    {
        if tiles[i].is_none() {
            tiles.set(i, Some(player));
            return;
        }
        i = i + 1;
    }
}

/// `player` takes the first empty corner of the board, or else its first empty cell.
pub fn place_prefer_corners(tiles: &mut [Option<usize>; 9], player: usize)
    ensures
        final(tiles)@ == corner_move(old(tiles)@, player),
{
    let corners: [usize; 4] = [0, 2, 6, 8];
    let mut k: usize = 0;
    while k < 4
        invariant
            k <= 4,
            corners@ == seq![0usize, 2usize, 6usize, 8usize],
            tiles@ == old(tiles)@,
            forall|j: int| 0 <= j < k ==> !(#[trigger] tiles@[corners@[j] as int] is None),
        decreases 4 - k,
    {
        let idx = corners[k];
        if tiles[idx].is_none() {
            tiles.set(idx, Some(player));
            return;
        }
        k = k + 1;
    }
    place_naive(tiles, player);
}

/// The computer's move on the board (see `blocking_move`).
pub fn place_blocking(tiles: &mut [Option<usize>; 9], player: usize)
    ensures
        final(tiles)@ == blocking_move(old(tiles)@, player),
{
    if let Some(idx) = get_win_tile(tiles, 1) {
        tiles.set(idx, Some(1));
    } else if let Some(idx) = get_win_tile(tiles, 0) {
        tiles.set(idx, Some(1));
    } else {
        if (tiles[5] == Some(0) || tiles[7] == Some(0)) && tiles[8] == None {
            tiles.set(8, Some(1));
        } else {
            place_prefer_corners(tiles, player);
        }
    }
}

proof fn lemma_win_check_cell(k: int)
    requires
        0 <= k < 24,
    ensures
        0 <= win_check(k).0 < 9,
        0 <= win_check(k).1 < 9,
        0 <= win_check(k).2 < 9,
{
}

proof fn lemma_win_tile_empty(tiles: Seq<Option<usize>>, player: usize, k: int)
    requires
        tiles.len() == 9,
        0 <= k,
    ensures
        win_tile_from(tiles, player, k) matches Some(c) ==> 0 <= c < 9 && tiles[c] is None,
    decreases 24 - k,
{
    if k < 24 {
        lemma_win_check_cell(k);
        if !win_check_hits(tiles, player, k) {
            lemma_win_tile_empty(tiles, player, k + 1);
        }
    }
}

proof fn lemma_naive_move_from(tiles: Seq<Option<usize>>, player: usize, i: int)
    requires
        0 <= i,
    ensures
        (exists|j: int| i <= j < tiles.len() && tiles[j] is None) ==> exists|j: int|
            0 <= j < tiles.len() && tiles[j] is None && naive_move_from(tiles, player, i) == tiles.update(
                j,
                Some(player),
            ),
        (forall|j: int| i <= j < tiles.len() ==> tiles[j] is Some) ==> naive_move_from(tiles, player, i)
            == tiles,
    decreases tiles.len() - i,
{
    if i < tiles.len() {
        if tiles[i] is None {
            assert(naive_move_from(tiles, player, i) == tiles.update(i, Some(player)));
        } else {
            lemma_naive_move_from(tiles, player, i + 1);
            if exists|j: int| i <= j < tiles.len() && tiles[j] is None {
                let j = choose|j: int| i <= j < tiles.len() && tiles[j] is None;
                assert(j != i);
                assert(i + 1 <= j < tiles.len() && tiles[j] is None);
            }
        }
    }
}

/// The computer's move takes one empty cell and leaves the rest of the
/// board as it was; on a full board it changes nothing.
pub proof fn lemma_blocking_move_takes_empty_cell(tiles: Seq<Option<usize>>, player: usize)
    requires
        tiles.len() == 9,
    ensures
        (exists|i: int| 0 <= i < 9 && tiles[i] is None) ==> exists|i: int, v: usize|
            0 <= i < 9 && tiles[i] is None && blocking_move(tiles, player) == tiles.update(i, Some(v)),
        (forall|i: int| 0 <= i < 9 ==> tiles[i] is Some) ==> blocking_move(tiles, player) == tiles,
{
    lemma_win_tile_empty(tiles, 1, 0);
    lemma_win_tile_empty(tiles, 0, 0);
    lemma_naive_move_from(tiles, player, 0);
    if let Some(t) = win_tile(tiles, 1) {
        assert(tiles[t] is None && blocking_move(tiles, player) == tiles.update(t, Some(1usize)));
    } else if let Some(t) = win_tile(tiles, 0) {
        assert(tiles[t] is None && blocking_move(tiles, player) == tiles.update(t, Some(1usize)));
    } else if (tiles[5] == Some(0usize) || tiles[7] == Some(0usize)) && tiles[8] is None {
        assert(tiles[8] is None && blocking_move(tiles, player) == tiles.update(8, Some(1usize)));
    } else if tiles[0] is None {
        assert(blocking_move(tiles, player) == tiles.update(0, Some(player)));
    } else if tiles[2] is None {
        assert(blocking_move(tiles, player) == tiles.update(2, Some(player)));
    } else if tiles[6] is None {
        assert(blocking_move(tiles, player) == tiles.update(6, Some(player)));
    } else if tiles[8] is None {
        assert(blocking_move(tiles, player) == tiles.update(8, Some(player)));
    } else {
        if exists|i: int| 0 <= i < 9 && tiles[i] is None {
            let j = choose|j: int|
                0 <= j < tiles.len() && tiles[j] is None && naive_move_from(tiles, player, 0) == tiles.update(
                    j,
                    Some(player),
                );
            assert(tiles[j] is None && blocking_move(tiles, player) == tiles.update(j, Some(player)));
        }
    }
}

/// Where a noughts-and-crosses game is.
#[derive(Debug, Copy, Clone, PartialEq, Eq, Structural)]
pub enum GameState {
    Playing,
    Draw,
    /// Won by this player.
    Win(usize),
}

/// Cells `a`, `b` and `c` are held, all by the same player.
pub open spec fn same_three(t: Seq<Option<usize>>, a: int, b: int, c: int) -> bool {
    t[a] is Some && t[a] == t[b] && t[b] == t[c]
}

/// Some row, column or diagonal is held by one player.
pub open spec fn line_complete(t: Seq<Option<usize>>) -> bool {
    ||| same_three(t, 0, 1, 2)
    ||| same_three(t, 3, 4, 5)
    ||| same_three(t, 6, 7, 8)
    ||| same_three(t, 0, 3, 6)
    ||| same_three(t, 1, 4, 7)
    ||| same_three(t, 2, 5, 8)
    ||| same_three(t, 0, 4, 8)
    ||| same_three(t, 2, 4, 6)
}

/// Every cell is held.
pub open spec fn board_full(t: Seq<Option<usize>>) -> bool {
    forall|i: int| 0 <= i < t.len() ==> t[i] is Some
}

fn same_three_exec(t: &[Option<usize>; 9], a: usize, b: usize, c: usize) -> (r: bool)
    requires
        a < 9 && b < 9 && c < 9,
    ensures
        r == same_three(t@, a as int, b as int, c as int),
{
    t[a].is_some() && t[a] == t[b] && t[b] == t[c]
}

/// The state of the game after a move, with `next_player` to move next: a
/// completed line wins for the player before `next_player`; else a full
/// board is a draw; else the game goes on as it was.
pub fn judge(tiles: &[Option<usize>; 9], next_player: usize, state: GameState) -> (r: GameState)
    requires
        next_player < usize::MAX,
    ensures
        r == if line_complete(tiles@) {
            GameState::Win(((next_player + 1) % 2) as usize)
        } else if board_full(tiles@) {
            GameState::Draw
        } else {
            state
        },
        held_line(tiles@) ==> r == GameState::Win(((next_player + 1) % 2) as usize),
        !held_line(tiles@) ==> r == if board_full(tiles@) {
            GameState::Draw
        } else {
            state
        },
{
    proof {
        lemma_line_complete_is_held_line(tiles@);
    }
    if same_three_exec(tiles, 0, 1, 2) || same_three_exec(tiles, 3, 4, 5) || same_three_exec(tiles, 6, 7, 8)
        || same_three_exec(tiles, 0, 3, 6) || same_three_exec(tiles, 1, 4, 7) || same_three_exec(tiles, 2, 5, 8)
        || same_three_exec(tiles, 0, 4, 8) || same_three_exec(tiles, 2, 4, 6) {
        return GameState::Win((next_player + 1) % 2);
    }
    let mut i: usize = 0;
    while i < 9
        invariant
            i <= 9,
            !line_complete(tiles@),
            forall|j: int| 0 <= j < i ==> tiles@[j] is Some,
        decreases 9 - i,
    {
        if tiles[i].is_none() {
            assert(!board_full(tiles@)) by {
                assert(tiles@[i as int] is None);
            }
            return state;
        }
        i = i + 1;
    }
    GameState::Draw
}

/// The number of held cells among the first `n`.
pub open spec fn placed_count(t: Seq<Option<usize>>, n: int) -> int
    decreases n,
{
    if n <= 0 {
        0
    } else {
        placed_count(t, n - 1) + if t[n - 1] is Some { 1int } else { 0 }
    }
}

/// The computer's turn: after the first piece it takes the middle, or the
/// top-left corner when the middle is taken; later it moves as `blocking_move` says.
pub open spec fn computer_move(t: Seq<Option<usize>>, player: usize) -> Seq<Option<usize>> {
    if placed_count(t, 9) == 1 {
        if t[4] is None {
            t.update(4, Some(player))
        } else {
            t.update(0, Some(player))
        }
    } else {
        blocking_move(t, player)
    }
}

/// Makes the computer's move (see `computer_move`); the computer moves after
/// one, three, five or seven pieces are placed.
pub fn computer_turn(tiles: &mut [Option<usize>; 9], player: usize)
    requires
        placed_count(old(tiles)@, 9) == 1 || placed_count(old(tiles)@, 9) == 3 || placed_count(old(tiles)@, 9)
            == 5 || placed_count(old(tiles)@, 9) == 7,
    ensures
        final(tiles)@ == computer_move(old(tiles)@, player),
{
    let mut pieces_placed: usize = 0;
    let mut i: usize = 0;
    while i < 9
        invariant
            i <= 9,
            pieces_placed == placed_count(tiles@, i as int),
            pieces_placed <= i,
        decreases 9 - i,
    {
        if tiles[i].is_some() {
            pieces_placed = pieces_placed + 1;
        }
        i = i + 1;
    }
    if pieces_placed == 1 {
        if tiles[4].is_none() {
            tiles.set(4, Some(player));
        } else {
            tiles.set(0, Some(player));
        }
    } else {
        place_blocking(tiles, player);
    }
}

/// What a step of the snake came to.
#[derive(Debug, Copy, Clone, PartialEq, Eq, Structural)]
pub enum StepOutcome {
    /// It moved one cell.
    Moved,
    /// It moved onto the apple and grew by one cell; a new apple is due.
    Ate,
    /// It ran into a wall or into itself; the game is over.
    Crashed,
}

/// The cells (row, column) of the snake's segments, head first.
pub open spec fn segment_cells(snake: Seq<((usize, usize), Direction)>) -> Seq<(usize, usize)> {
    snake.map_values(|s: ((usize, usize), Direction)| s.0)
}

/// Moves the snake (head first, each segment with the way it heads) one cell
/// in direction `dir` on a field of `rows` by `cols` cells: into a free cell
/// of the field it moves, leaving its last cell unless the new cell holds the
/// apple, in which case it grows; anywhere else it crashes and stays.
pub fn snake_step(
    snake: &mut Vec<((usize, usize), Direction)>,
    dir: Direction,
    apple: (usize, usize),
    rows: usize,
    cols: usize,
) -> (r: StepOutcome)
    requires
        old(snake)@.len() >= 1,
        isize::MIN < next_pos(old(snake)@[0].0, dir).0 < isize::MAX,
        isize::MIN < next_pos(old(snake)@[0].0, dir).1 < isize::MAX,
    ensures
        ({
            let p = next_pos(old(snake)@[0].0, dir);
            let cell = (p.0 as isize as usize, p.1 as isize as usize);
            let free = 0 <= p.1 < cols as isize && 0 <= p.0 < rows as isize && !segment_cells(
                old(snake)@,
            ).contains(cell);
            &&& !free ==> r == StepOutcome::Crashed && final(snake)@ == old(snake)@
            &&& free && cell != apple ==> r == StepOutcome::Moved && final(snake)@ == seq![(cell, dir)]
                + old(snake)@.drop_last()
            &&& free && cell == apple ==> r == StepOutcome::Ate && final(snake)@ == seq![(cell, dir)] + old(
                snake,
            )@
        }),
{
    let front = snake[0].0;
    let mut body: Vec<(usize, usize)> = Vec::new();
    let mut i: usize = 0;
    while i < snake.len()
        invariant
            i <= snake@.len(),
            body@ == segment_cells(snake@).subrange(0, i as int),
        decreases snake@.len() - i,
    {
        body.push(snake[i].0);
        i = i + 1;
        assert(body@ =~= segment_cells(snake@).subrange(0, i as int));
    }
    assert(body@ =~= segment_cells(snake@));
    if is_next_move_valid(front, &body, dir, rows, cols) {
        let f = (front.0 as isize, front.1 as isize);
        let new_pos = match dir {
            Direction::Left => (f.0, f.1 - 1),
            Direction::Right => (f.0, f.1 + 1),
            Direction::Down => (f.0 + 1, f.1),
            Direction::Up => (f.0 - 1, f.1),
        };
        let cell = (new_pos.0 as usize, new_pos.1 as usize);
        let ghost before = snake@;
        let ate = cell.0 == apple.0 && cell.1 == apple.1;
        if !ate {
            snake.pop();
        }
        snake.insert(0, (cell, dir));
        if ate {
            assert(snake@ =~= seq![(cell, dir)] + before);
            StepOutcome::Ate
        } else {
            assert(snake@ =~= seq![(cell, dir)] + before.drop_last());
            StepOutcome::Moved
        }
    } else {
        StepOutcome::Crashed
    }
}

/// Where the apple goes for the random numbers `row_random` and
/// `col_random`: the cell (`row_random % rows`, `col_random % cols`), unless
/// a segment of the snake lies there, in which case `None`, and the numbers
/// are drawn again. After the snake eats, the snake looked at is the one
/// from before the step (its new head left out).
pub fn place_apple(
    snake: &[((usize, usize), Direction)],
    rows: usize,
    cols: usize,
    row_random: usize,
    col_random: usize,
) -> (a: Option<(usize, usize)>)
    requires
        rows > 0,
        cols > 0,
    ensures
        ({
            let cell = (row_random % rows, col_random % cols);
            a == if segment_cells(snake@).contains(cell) {
                None
            } else {
                Some(cell)
            }
        }),
{
    let cell = (row_random % rows, col_random % cols);
    let mut i: usize = 0;
    while i < snake.len()
        invariant
            cell == (row_random % rows, col_random % cols),
            i <= snake@.len(),
            forall|j: int| 0 <= j < i ==> #[trigger] snake@[j].0 != cell,
        decreases snake@.len() - i,
    {
        let s = snake[i].0;
        if s.0 == cell.0 && s.1 == cell.1 {
            assert(segment_cells(snake@).len() == snake@.len() && segment_cells(snake@)[i as int] == cell);
            assert(segment_cells(snake@).contains(cell));
            return None;
        }
        i = i + 1;
    }
    assert(!segment_cells(snake@).contains(cell)) by {
        if segment_cells(snake@).contains(cell) {
            let j = choose|j: int| 0 <= j < segment_cells(snake@).len() && segment_cells(snake@)[j] == cell;
            assert(snake@[j].0 == cell);
        }
    }
    Some(cell)
}

/// The entity number of the left paddle in the paddle game.
pub const LEFT_PADDLE: usize = 0;
/// The entity number of the right paddle in the paddle game.
pub const RIGHT_PADDLE: usize = 1;
/// The score at which a player of the paddle game wins.
pub const WIN_SCORE: u32 = 2;

/// What the paddle game does once a point has been scored.
#[derive(Debug, Copy, Clone, PartialEq, Eq, Structural)]
pub enum ScoreOutcome {
    /// The game is over, won by the paddle with this entity number.
    GameOver(usize),
    /// Play resumes after a pause.
    Resume,
}

/// Adds the points just scored to the two paddles' scores; the left paddle
/// wins once its score reaches `WIN_SCORE`, else the right one does, else
/// play resumes.
pub fn score_update(left: &mut u32, right: &mut u32, left_delta: u32, right_delta: u32) -> (o:
    ScoreOutcome)
    requires
        *old(left) + left_delta <= u32::MAX,
        *old(right) + right_delta <= u32::MAX,
    ensures
        *final(left) == *old(left) + left_delta,
        *final(right) == *old(right) + right_delta,
        o == if *final(left) >= WIN_SCORE {
            ScoreOutcome::GameOver(LEFT_PADDLE)
        } else if *final(right) >= WIN_SCORE {
            ScoreOutcome::GameOver(RIGHT_PADDLE)
        } else {
            ScoreOutcome::Resume
        },
{
    *left += left_delta;
    *right += right_delta;
    if *left >= WIN_SCORE {
        ScoreOutcome::GameOver(LEFT_PADDLE)
    } else if *right >= WIN_SCORE {
        ScoreOutcome::GameOver(RIGHT_PADDLE)
    } else {
        ScoreOutcome::Resume
    }
}

} // verus!
