//! The pieces of the falling-blocks game: where a new piece appears, how a
//! piece turns about its third tile, and whether it fits on the board.
use vstd::prelude::*;
use crate::color::{
    unpack_argb, Color, CYAN, DARK_BLUE, DARK_GREY, GREEN, ORANGE, PURPLE, RED, YELLOW,
};
use crate::games::{lemma_idx_pos_roundtrip, lemma_pos_idx_roundtrip, pos_to_idx, TILES_X, TILES_Y};

verus! {

/// The colour of an empty cell of the board.
pub const TILE_BG_COLOR: u32 = DARK_GREY;

/// A cell of the board or of a piece: its column and row, and its colour.
#[derive(Debug, Copy, Clone, PartialEq, Eq)]
pub struct Tile {
    pub pos: (usize, usize),
    pub color: Color,
}

impl Tile {
    pub fn new(x: usize, y: usize, color: Color) -> (t: Self)
        ensures
            t.pos == (x, y),
            t.color == color,
    {
        Tile { pos: (x, y), color }
    }

    /// A cell is empty when it has the background colour.
    pub fn is_empty(&self) -> (b: bool)
        ensures
            b == (self.color == unpack_argb(TILE_BG_COLOR)),
    {
        self.color == Color::from_hex(TILE_BG_COLOR)
    }
}

/// A falling piece: its tiles, the one at index 2 being the one it turns about.
#[derive(Debug, Clone)]
pub struct Piece {
    pub tiles: Vec<Tile>,
}

/// The tile lies on the board.
pub open spec fn on_board(t: Tile) -> bool {
    t.pos.0 <= TILES_X - 1 && t.pos.1 <= TILES_Y - 1
}

/// The index of the board cell under a tile, rows first.
pub open spec fn cell_of(t: Tile) -> int {
    t.pos.1 * TILES_X + t.pos.0
}

/// The tiles before `i` lie over empty cells of the board.
pub open spec fn clear_before(tiles: Seq<Tile>, board: Seq<Tile>, i: int) -> bool {
    forall|j: int|
        0 <= j < i ==> cell_of(#[trigger] tiles[j]) < board.len() && board[cell_of(tiles[j])].color
            == unpack_argb(TILE_BG_COLOR)
}

/// Whether `is_valid` can look up the cells it reads: where every tile lies
/// on the board, the cell of each tile that it reaches (all earlier tiles
/// lying over empty cells) is a cell of `board`.
pub open spec fn cells_readable(tiles: Seq<Tile>, board: Seq<Tile>) -> bool {
    (forall|i: int| 0 <= i < tiles.len() ==> on_board(#[trigger] tiles[i])) ==> forall|i: int|
        0 <= i < tiles.len() && clear_before(tiles, board, i) ==> cell_of(#[trigger] tiles[i])
            < board.len()
}

/// The piece lies on the board, over empty cells only.
pub open spec fn piece_fits(tiles: Seq<Tile>, board: Seq<Tile>) -> bool {
    &&& forall|i: int| 0 <= i < tiles.len() ==> on_board(#[trigger] tiles[i])
    &&& clear_before(tiles, board, tiles.len() as int)
}

impl Piece {
    /// Whether the piece lies on the board, over empty cells only.
    pub fn is_valid(&self, board_tiles: &[Tile]) -> (b: bool)
        requires
            cells_readable(self.tiles@, board_tiles@),
        ensures
            b == piece_fits(self.tiles@, board_tiles@),
    {
        let mut i: usize = 0;
        while i < self.tiles.len()
            invariant
                i <= self.tiles.len(),
                forall|j: int| 0 <= j < i ==> on_board(#[trigger] self.tiles@[j]),
            decreases self.tiles.len() - i,
        {
            let (x, y) = self.tiles[i].pos;
            if x > TILES_X - 1 || y > TILES_Y - 1 {
                assert(!on_board(self.tiles@[i as int]));
                return false;
            }
            i = i + 1;
        }
        let mut i: usize = 0;
        while i < self.tiles.len()
            invariant
                i <= self.tiles.len(),
                cells_readable(self.tiles@, board_tiles@),
                forall|j: int| 0 <= j < self.tiles.len() ==> on_board(#[trigger] self.tiles@[j]),
                clear_before(self.tiles@, board_tiles@, i as int),
            decreases self.tiles.len() - i,
        {
            let (x, y) = self.tiles[i].pos;
            let idx = y * TILES_X + x;
            assert(idx == cell_of(self.tiles@[i as int]));
            if !board_tiles[idx].is_empty() {
                assert(!clear_before(self.tiles@, board_tiles@, self.tiles.len() as int));
                return false;
            }
            i = i + 1;
        }
        true
    }
}

/// The colour of an empty cell, as a colour.
pub open spec fn bg() -> Color {
    unpack_argb(TILE_BG_COLOR)
}

/// The board: one tile per cell, rows first, each tile keeping the column and
/// row of its cell.
pub open spec fn board_wf(b: Seq<Tile>) -> bool {
    &&& b.len() == TILES_X * TILES_Y
    &&& forall|i: int|
        0 <= i < b.len() ==> #[trigger] b[i].pos == (
            (i % (TILES_X as int)) as usize,
            (i / (TILES_X as int)) as usize,
        )
}

/// The empty board.
pub fn new_board() -> (b: Vec<Tile>)
    ensures
        board_wf(b@),
        forall|i: int| 0 <= i < b.len() ==> #[trigger] b@[i].color == bg(),
{
    let mut tiles: Vec<Tile> = Vec::new();
    for row in 0..TILES_Y
        invariant
            tiles.len() == row * TILES_X,
            forall|i: int|
                0 <= i < tiles.len() ==> #[trigger] tiles@[i].pos == (
                    (i % (TILES_X as int)) as usize,
                    (i / (TILES_X as int)) as usize,
                ) && tiles@[i].color == bg(),
    {
        for col in 0..TILES_X
            invariant
                row < TILES_Y,
                tiles.len() == row * TILES_X + col,
                forall|i: int|
                    0 <= i < tiles.len() ==> #[trigger] tiles@[i].pos == (
                        (i % (TILES_X as int)) as usize,
                        (i / (TILES_X as int)) as usize,
                    ) && tiles@[i].color == bg(),
        {
            proof {
                lemma_pos_idx_roundtrip(col, row);
            }
            tiles.push(Tile::new(col, row, Color::from_hex(TILE_BG_COLOR)));
        }
    }
    assert forall|i: int| 0 <= i < tiles.len() implies #[trigger] tiles@[i].color == bg() by {
        assert(tiles@[i].pos == ((i % (TILES_X as int)) as usize, (i / (TILES_X as int)) as usize));
    }
    tiles
}

/// How many of the first `n` tiles of `b` lie in row `row` and are filled.
pub open spec fn row_count(b: Seq<Tile>, row: int, n: int) -> int
    decreases n,
{
    if n <= 0 {
        0
    } else {
        row_count(b, row, n - 1) + if b[n - 1].pos.1 == row && b[n - 1].color != bg() {
            1int
        } else {
            0int
        }
    }
}

/// Row `row` is complete: as many filled tiles lie in it as the board has
/// columns.
pub open spec fn row_complete(b: Seq<Tile>, row: int) -> bool {
    row_count(b, row, b.len() as int) == TILES_X
}

/// Whether row `row` is complete (see `row_complete`).
pub fn row_is_complete(board: &[Tile], row: usize) -> (b: bool)
    requires
        board.len() <= TILES_X * TILES_Y,
    ensures
        b == row_complete(board@, row as int),
{
    let mut n: usize = 0;
    let mut i: usize = 0;
    while i < board.len()
        invariant
            i <= board.len() <= TILES_X * TILES_Y,
            n == row_count(board@, row as int, i as int),
            n <= i,
        decreases board.len() - i,
    {
        if board[i].pos.1 == row && !board[i].is_empty() {
            n = n + 1;
        }
        i = i + 1;
    }
    n == TILES_X
}

/// The colour of the topmost filled cell of column `x` among rows `0..n`, or
/// the background colour where there is none.
pub open spec fn top_color(b: Seq<Tile>, x: int, n: nat) -> Color
    decreases n,
{
    if n == 0 {
        bg()
    } else {
        let a = top_color(b, x, (n - 1) as nat);
        if a != bg() {
            a
        } else {
            b[(n - 1) * TILES_X + x].color
        }
    }
}

/// The board after row `r` is cleared the way the game clears it: the row is
/// emptied, then, from the top row down, every filled cell above `r` moves
/// one row down. So each column collapses into its cell in row `r`, which
/// takes the colour of the column's topmost filled cell above `r` (or stays
/// empty), all cells above row `r` are emptied, and the rows below stay.
pub open spec fn collapsed(b: Seq<Tile>, r: int) -> Seq<Tile> {
    Seq::new(
        b.len(),
        |i: int|
            Tile {
                pos: b[i].pos,
                color: if i / (TILES_X as int) < r {
                    bg()
                } else if i / (TILES_X as int) == r {
                    top_color(b, i % (TILES_X as int), r as nat)
                } else {
                    b[i].color
                },
            },
    )
}

/// How many rows of column `x` the downward sweep has passed once it reaches
/// column `c` of row `r`, stopping at row `row`.
spec fn swept(x: int, r: int, c: int, row: int) -> int {
    let k = if x < c {
        r + 1
    } else {
        r
    };
    if k < row {
        k
    } else {
        row
    }
}

/// The board part way through the downward sweep: in each column, the rows
/// passed are empty, the next row holds the topmost filled colour so far, and
/// the rest is untouched.
spec fn sweeping(b: Seq<Tile>, row: int, r: int, c: int) -> Seq<Tile> {
    Seq::new(
        b.len(),
        |i: int|
            {
                let x = i % (TILES_X as int);
                let y = i / (TILES_X as int);
                let k = swept(x, r, c, row);
                Tile {
                    pos: b[i].pos,
                    color: if y < k {
                        bg()
                    } else if y == k {
                        top_color(b, x, (k + 1) as nat)
                    } else {
                        b[i].color
                    },
                }
            },
    )
}

proof fn lemma_top_color_same(b1: Seq<Tile>, b2: Seq<Tile>, x: int, n: nat)
    requires
        forall|y: int|
            0 <= y < n ==> #[trigger] b1[y * TILES_X + x].color == b2[y * TILES_X + x].color,
    ensures
        top_color(b1, x, n) == top_color(b2, x, n),
    decreases n,
{
    if n > 0 {
        lemma_top_color_same(b1, b2, x, (n - 1) as nat);
        assert(b1[(n - 1) * TILES_X + x].color == b2[(n - 1) * TILES_X + x].color);
    }
}

proof fn lemma_sweep_step(b: Seq<Tile>, row: int, r: int, c: int)
    requires
        b.len() == TILES_X * TILES_Y,
        0 <= r < TILES_Y,
        0 <= c < TILES_X,
        0 <= row < TILES_Y,
    ensures
        ({
            let s = sweeping(b, row, r, c);
            let i = r * TILES_X + c;
            if r < row && s[i].color != bg() {
                sweeping(b, row, r, c + 1) == s.update(
                    i + TILES_X,
                    Tile { pos: s[i + TILES_X].pos, color: s[i].color },
                ).update(i, Tile { pos: s[i].pos, color: bg() })
            } else {
                sweeping(b, row, r, c + 1) == s
            }
        }),
{
    let s = sweeping(b, row, r, c);
    let t = sweeping(b, row, r, c + 1);
    let i = r * TILES_X + c;
    lemma_pos_idx_roundtrip(c as usize, r as usize);
    if r + 1 < TILES_Y {
        lemma_pos_idx_roundtrip(c as usize, (r + 1) as usize);
    }
    assert forall|j: int| 0 <= j < b.len() && j != i && j != i + TILES_X implies #[trigger] t[j] == s[j] by {
        lemma_idx_pos_roundtrip(j as usize);
    }
    if r < row && s[i].color != bg() {
        let u = s.update(i + TILES_X, Tile { pos: s[i + TILES_X].pos, color: s[i].color }).update(
            i,
            Tile { pos: s[i].pos, color: bg() },
        );
        assert(t =~= u);
    } else {
        assert(t =~= s);
    }
}

/// Clears row `row` of the board the way the game does (see `collapsed`).
pub fn clear_row(board: &mut Vec<Tile>, row: usize)
    requires
        board_wf(old(board)@),
        row < TILES_Y,
    ensures
        final(board)@ == collapsed(old(board)@, row as int),
{
    let ghost b0 = board@;
    let mut i: usize = 0;
    while i < board.len()
        invariant
            board.len() == b0.len() == TILES_X * TILES_Y,
            board_wf(b0),
            i <= board.len(),
            forall|j: int|
                0 <= j < i ==> #[trigger] board@[j] == (if b0[j].pos.1 == row {
                    Tile { pos: b0[j].pos, color: bg() }
                } else {
                    b0[j]
                }),
            forall|j: int| i <= j < board.len() ==> #[trigger] board@[j] == b0[j],
        decreases board.len() - i,
    {
        if board[i].pos.1 == row {
            let p = board[i].pos;
            board.set(i, Tile { pos: p, color: Color::from_hex(TILE_BG_COLOR) });
        }
        i = i + 1;
    }
    let ghost b1 = board@;
    proof {
        assert(board@ =~= sweeping(b1, row as int, 0, 0)) by {
            assert forall|j: int| 0 <= j < b1.len() implies #[trigger] board@[j] == sweeping(
                b1,
                row as int,
                0,
                0,
            )[j] by {
                lemma_idx_pos_roundtrip(j as usize);
                if j / (TILES_X as int) == 0 {
                    reveal_with_fuel(top_color, 2);
                }
            }
        }
    }
    for r in 0..TILES_Y
        invariant
            board@.len() == TILES_X * TILES_Y,
            b1.len() == TILES_X * TILES_Y,
            row < TILES_Y,
            board@ == sweeping(b1, row as int, r as int, 0),
    {
        for c in 0..TILES_X
            invariant
                board@.len() == TILES_X * TILES_Y,
                b1.len() == TILES_X * TILES_Y,
                row < TILES_Y,
                r < TILES_Y,
                board@ == sweeping(b1, row as int, r as int, c as int),
        {
            proof {
                lemma_sweep_step(b1, row as int, r as int, c as int);
            }
            let src = pos_to_idx(c, r);
            if r < row && !board[src].is_empty() {
                let dst = pos_to_idx(c, r + 1);
                let color = board[src].color;
                let dp = board[dst].pos;
                board.set(dst, Tile { pos: dp, color });
                let sp = board[src].pos;
                board.set(src, Tile { pos: sp, color: Color::from_hex(TILE_BG_COLOR) });
            }
        }
        proof {
            assert(sweeping(b1, row as int, r as int, TILES_X as int) =~= sweeping(
                b1,
                row as int,
                r as int + 1,
                0,
            )) by {
                assert forall|j: int| 0 <= j < b1.len() implies #[trigger] sweeping(
                    b1,
                    row as int,
                    r as int,
                    TILES_X as int,
                )[j] == sweeping(b1, row as int, r as int + 1, 0)[j] by {
                    lemma_idx_pos_roundtrip(j as usize);
                }
            }
        }
    }
    proof {
        let s = sweeping(b1, row as int, TILES_Y as int, 0);
        let e = collapsed(b0, row as int);
        assert forall|j: int| 0 <= j < b0.len() implies #[trigger] s[j] == e[j] by {
            lemma_idx_pos_roundtrip(j as usize);
            let x = j % (TILES_X as int);
            if j / (TILES_X as int) == row {
                assert forall|y: int| 0 <= y < row implies #[trigger] b1[y * TILES_X + x].color
                    == b0[y * TILES_X + x].color by {
                    lemma_pos_idx_roundtrip(x as usize, y as usize);
                }
                lemma_top_color_same(b1, b0, x, row as nat);
                lemma_pos_idx_roundtrip(x as usize, row);
            }
        }
        assert(s =~= e);
    }
}

/// Every tile of the piece lies over a cell of the board.
pub open spec fn over_board(t: Seq<Tile>, b: Seq<Tile>) -> bool {
    forall|i: int| 0 <= i < t.len() ==> cell_of(#[trigger] t[i]) < b.len()
}

/// The board with the colour of each tile of the piece painted onto the
/// tile's cell, in order.
pub open spec fn locked(b: Seq<Tile>, t: Seq<Tile>) -> Seq<Tile>
    decreases t.len(),
{
    if t.len() == 0 {
        b
    } else {
        let b1 = locked(b, t.drop_last());
        let k = cell_of(t.last());
        b1.update(k, Tile { pos: b1[k].pos, color: t.last().color })
    }
}

/// The board after the row of each tile of the piece is looked at in turn,
/// and cleared (see `collapsed`) where it is complete at that moment.
pub open spec fn rows_cleared(b: Seq<Tile>, t: Seq<Tile>) -> Seq<Tile>
    decreases t.len(),
{
    if t.len() == 0 {
        b
    } else {
        let b1 = rows_cleared(b, t.drop_last());
        let r = t.last().pos.1 as int;
        if row_complete(b1, r) {
            collapsed(b1, r)
        } else {
            b1
        }
    }
}

/// The board after the piece lands: its tiles are painted onto the board,
/// then its rows are cleared where complete.
pub open spec fn landed(b: Seq<Tile>, t: Seq<Tile>) -> Seq<Tile> {
    rows_cleared(locked(b, t), t)
}

proof fn lemma_locked_keeps_cells(b: Seq<Tile>, t: Seq<Tile>)
    requires
        over_board(t, b),
    ensures
        locked(b, t).len() == b.len(),
        forall|i: int| 0 <= i < b.len() ==> #[trigger] locked(b, t)[i].pos == b[i].pos,
    decreases t.len(),
{
    if t.len() > 0 {
        lemma_locked_keeps_cells(b, t.drop_last());
    }
}

proof fn lemma_rows_cleared_keeps_cells(b: Seq<Tile>, t: Seq<Tile>)
    requires
        board_wf(b),
    ensures
        board_wf(rows_cleared(b, t)),
    decreases t.len(),
{
    if t.len() > 0 {
        lemma_rows_cleared_keeps_cells(b, t.drop_last());
    }
}

/// Paints the piece's tiles onto the board (see `locked`).
pub fn lock_piece(board: &mut Vec<Tile>, piece: &Piece)
    requires
        over_board(piece.tiles@, old(board)@),
    ensures
        final(board)@ == locked(old(board)@, piece.tiles@),
{
    let ghost b0 = board@;
    for k in 0..piece.tiles.len()
        invariant
            board@ == locked(b0, piece.tiles@.take(k as int)),
            board@.len() == b0.len(),
            over_board(piece.tiles@, b0),
    {
        let (x, y) = piece.tiles[k].pos;
        assert(cell_of(piece.tiles@[k as int]) < b0.len() == board.len());
        let idx = pos_to_idx(x, y);
        let p = board[idx].pos;
        board.set(idx, Tile { pos: p, color: piece.tiles[k].color });
        assert(piece.tiles@.take(k + 1).drop_last() =~= piece.tiles@.take(k as int));
    }
    assert(piece.tiles@.take(piece.tiles@.len() as int) =~= piece.tiles@);
}

/// Clears, in turn, the row of each tile of the piece where it is complete
/// (see `rows_cleared`).
pub fn clear_complete_rows(board: &mut Vec<Tile>, piece: &Piece)
    requires
        board_wf(old(board)@),
        forall|i: int| 0 <= i < piece.tiles@.len() ==> (#[trigger] piece.tiles@[i]).pos.1 < TILES_Y,
    ensures
        final(board)@ == rows_cleared(old(board)@, piece.tiles@),
{
    let ghost b0 = board@;
    for k in 0..piece.tiles.len()
        invariant
            board@ == rows_cleared(b0, piece.tiles@.take(k as int)),
            board_wf(b0),
            forall|i: int| 0 <= i < piece.tiles@.len() ==> (#[trigger] piece.tiles@[i]).pos.1 < TILES_Y,
    {
        proof {
            lemma_rows_cleared_keeps_cells(b0, piece.tiles@.take(k as int));
            assert(piece.tiles@.take(k + 1).drop_last() =~= piece.tiles@.take(k as int));
        }
        let r = piece.tiles[k].pos.1;
        if row_is_complete(board, r) {
            clear_row(board, r);
        }
    }
    assert(piece.tiles@.take(piece.tiles@.len() as int) =~= piece.tiles@);
}

/// Lands the piece on the board (see `landed`).
pub fn land_piece(board: &mut Vec<Tile>, piece: &Piece)
    requires
        board_wf(old(board)@),
        over_board(piece.tiles@, old(board)@),
    ensures
        final(board)@ == landed(old(board)@, piece.tiles@),
{
    proof {
        lemma_locked_keeps_cells(board@, piece.tiles@);
        assert forall|i: int| 0 <= i < piece.tiles@.len() implies (#[trigger] piece.tiles@[i]).pos.1
            < TILES_Y by {
            assert(cell_of(piece.tiles@[i]) < TILES_X * TILES_Y);
        }
    }
    lock_piece(board, piece);
    clear_complete_rows(board, piece);
}

/// How a piece turns, as the offsets from its tile 2 at which its tiles 0, 1
/// and 3 land; `None` for a piece that does not turn (the square, or a shape
/// in no position the rules name). The piece's kind is told by the colour of
/// its tile 0, and its position by where tile 0 lies from tile 1, 2 or 3.
pub open spec fn turn_offsets(t: Seq<Tile>) -> Option<((int, int), (int, int), (int, int))> {
    if t[0].color == unpack_argb(CYAN) {
        if t[0].pos.0 == t[1].pos.0 {
            Some(((-2int, 0int), (-1int, 0int), (1int, 0int)))
        } else {
            Some(((0int, -2int), (0int, -1int), (0int, 1int)))
        }
    } else if t[0].color == unpack_argb(DARK_BLUE) {
        if t[0].pos.0 < t[3].pos.0 && t[0].pos.1 < t[3].pos.1 {
            Some(((1int, -1int), (0int, -1int), (0int, 1int)))
        } else if t[0].pos.0 > t[3].pos.0 && t[0].pos.1 < t[3].pos.1 {
            Some(((1int, 1int), (1int, 0int), (-1int, 0int)))
        } else if t[0].pos.0 > t[3].pos.0 && t[0].pos.1 > t[3].pos.1 {
            Some(((-1int, 1int), (0int, 1int), (0int, -1int)))
        } else if t[0].pos.0 < t[3].pos.0 && t[0].pos.1 > t[3].pos.1 {
            Some(((-1int, -1int), (-1int, 0int), (1int, 0int)))
        } else {
            None
        }
    } else if t[0].color == unpack_argb(ORANGE) {
        if t[0].pos.0 > t[3].pos.0 && t[0].pos.1 < t[3].pos.1 {
            Some(((1int, 1int), (0int, 1int), (0int, -1int)))
        } else if t[0].pos.0 > t[3].pos.0 && t[0].pos.1 > t[3].pos.1 {
            Some(((-1int, 1int), (-1int, 0int), (1int, 0int)))
        } else if t[0].pos.0 < t[3].pos.0 && t[0].pos.1 > t[3].pos.1 {
            Some(((-1int, -1int), (0int, -1int), (0int, 1int)))
        } else if t[0].pos.0 < t[3].pos.0 && t[0].pos.1 < t[3].pos.1 {
            Some(((1int, -1int), (1int, 0int), (-1int, 0int)))
        } else {
            None
        }
    } else if t[0].color == unpack_argb(RED) {
        if t[0].pos.0 < t[3].pos.0 {
            Some(((1int, -1int), (1int, 0int), (0int, 1int)))
        } else {
            Some(((-1int, -1int), (0int, -1int), (1int, 0int)))
        }
    } else if t[0].color == unpack_argb(GREEN) {
        if t[0].pos.0 > t[3].pos.0 {
            Some(((-1int, -1int), (-1int, 0int), (0int, 1int)))
        } else {
            Some(((1int, -1int), (0int, -1int), (-1int, 0int)))
        }
    } else if t[0].color == unpack_argb(PURPLE) {
        if t[0].pos.1 < t[2].pos.1 {
            Some(((1int, 0int), (0int, -1int), (0int, 1int)))
        } else if t[0].pos.1 > t[2].pos.1 {
            Some(((-1int, 0int), (0int, -1int), (0int, 1int)))
        } else if t[0].pos.0 < t[2].pos.0 {
            Some(((0int, -1int), (-1int, 0int), (1int, 0int)))
        } else if t[0].pos.0 > t[2].pos.0 {
            Some(((0int, 1int), (-1int, 0int), (1int, 0int)))
        } else {
            None
        }
    } else {
        None
    }
}

/// Whether a piece turns, its tiles are where `turn_offsets` puts them: tile 2
/// stays, and no tile leaves the range of positions.
pub open spec fn turn_in_range(t: Seq<Tile>) -> bool {
    match turn_offsets(t) {
        Some((o0, o1, o3)) => {
            &&& 0 <= t[2].pos.0 + o0.0 <= usize::MAX && 0 <= t[2].pos.1 + o0.1 <= usize::MAX
            &&& 0 <= t[2].pos.0 + o1.0 <= usize::MAX && 0 <= t[2].pos.1 + o1.1 <= usize::MAX
            &&& 0 <= t[2].pos.0 + o3.0 <= usize::MAX && 0 <= t[2].pos.1 + o3.1 <= usize::MAX
        },
        None => true,
    }
}

/// The tile `t` moved to `p` plus `o`.
pub open spec fn moved_tile(t: Tile, p: (usize, usize), o: (int, int)) -> Tile {
    Tile { pos: ((p.0 + o.0) as usize, (p.1 + o.1) as usize), color: t.color }
}

/// The piece after it turns.
pub open spec fn turned(t: Seq<Tile>) -> Seq<Tile> {
    match turn_offsets(t) {
        Some((o0, o1, o3)) => t.update(0, moved_tile(t[0], t[2].pos, o0)).update(
            1,
            moved_tile(t[1], t[2].pos, o1),
        ).update(3, moved_tile(t[3], t[2].pos, o3)),
        None => t,
    }
}

fn turn_offsets_exec(tiles: &Vec<Tile>) -> (r: Option<((i8, i8), (i8, i8), (i8, i8))>)
    requires
        tiles.len() >= 4,
    ensures
        match r {
            Some(((a, b), (c, d), (e, f))) => turn_offsets(tiles@) == Some(
                ((a as int, b as int), (c as int, d as int), (e as int, f as int)),
            ),
            None => turn_offsets(tiles@) is None,
        },
{
    let c = tiles[0].color;
    let p0 = tiles[0].pos;
    let p1 = tiles[1].pos;
    let p2 = tiles[2].pos;
    let p3 = tiles[3].pos;
    if c == Color::from_hex(CYAN) {
        if p0.0 == p1.0 {
            Some(((-2i8, 0i8), (-1i8, 0i8), (1i8, 0i8)))
        } else {
            Some(((0i8, -2i8), (0i8, -1i8), (0i8, 1i8)))
        }
    } else if c == Color::from_hex(DARK_BLUE) {
        if p0.0 < p3.0 && p0.1 < p3.1 {
            Some(((1i8, -1i8), (0i8, -1i8), (0i8, 1i8)))
        } else if p0.0 > p3.0 && p0.1 < p3.1 {
            Some(((1i8, 1i8), (1i8, 0i8), (-1i8, 0i8)))
        } else if p0.0 > p3.0 && p0.1 > p3.1 {
            Some(((-1i8, 1i8), (0i8, 1i8), (0i8, -1i8)))
        } else if p0.0 < p3.0 && p0.1 > p3.1 {
            Some(((-1i8, -1i8), (-1i8, 0i8), (1i8, 0i8)))
        } else {
            None
        }
    } else if c == Color::from_hex(ORANGE) {
        if p0.0 > p3.0 && p0.1 < p3.1 {
            Some(((1i8, 1i8), (0i8, 1i8), (0i8, -1i8)))
        } else if p0.0 > p3.0 && p0.1 > p3.1 {
            Some(((-1i8, 1i8), (-1i8, 0i8), (1i8, 0i8)))
        } else if p0.0 < p3.0 && p0.1 > p3.1 {
            Some(((-1i8, -1i8), (0i8, -1i8), (0i8, 1i8)))
        } else if p0.0 < p3.0 && p0.1 < p3.1 {
            Some(((1i8, -1i8), (1i8, 0i8), (-1i8, 0i8)))
        } else {
            None
        }
    } else if c == Color::from_hex(RED) {
        if p0.0 < p3.0 {
            Some(((1i8, -1i8), (1i8, 0i8), (0i8, 1i8)))
        } else {
            Some(((-1i8, -1i8), (0i8, -1i8), (1i8, 0i8)))
        }
    } else if c == Color::from_hex(GREEN) {
        if p0.0 > p3.0 {
            Some(((-1i8, -1i8), (-1i8, 0i8), (0i8, 1i8)))
        } else {
            Some(((1i8, -1i8), (0i8, -1i8), (-1i8, 0i8)))
        }
    } else if c == Color::from_hex(PURPLE) {
        if p0.1 < p2.1 {
            Some(((1i8, 0i8), (0i8, -1i8), (0i8, 1i8)))
        } else if p0.1 > p2.1 {
            Some(((-1i8, 0i8), (0i8, -1i8), (0i8, 1i8)))
        } else if p0.0 < p2.0 {
            Some(((0i8, -1i8), (-1i8, 0i8), (1i8, 0i8)))
        } else if p0.0 > p2.0 {
            Some(((0i8, 1i8), (-1i8, 0i8), (1i8, 0i8)))
        } else {
            None
        }
    } else {
        None
    }
}

fn offset(v: usize, d: i8) -> (r: usize)
    requires
        0 <= v + d <= usize::MAX,
    ensures
        r == v + d,
{
    if d >= 0 {
        v + (d as usize)
    } else {
        v - ((-(d as i16)) as usize)
    }
}

fn move_tile(tiles: &mut Vec<Tile>, k: usize, p: (usize, usize), o: (i8, i8))
    requires
        k < old(tiles).len(),
        0 <= p.0 + o.0 <= usize::MAX,
        0 <= p.1 + o.1 <= usize::MAX,
    ensures
        final(tiles)@ == old(tiles)@.update(
            k as int,
            moved_tile(old(tiles)@[k as int], p, (o.0 as int, o.1 as int)),
        ),
{
    let color = tiles[k].color;
    tiles.set(k, Tile { pos: (offset(p.0, o.0), offset(p.1, o.1)), color });
}

/// The colours of the pieces that turn: all but the square.
pub open spec fn turning_kind(c: Color) -> bool {
    ||| c == unpack_argb(CYAN)
    ||| c == unpack_argb(DARK_BLUE)
    ||| c == unpack_argb(ORANGE)
    ||| c == unpack_argb(RED)
    ||| c == unpack_argb(GREEN)
    ||| c == unpack_argb(PURPLE)
}

/// Turns a piece about its tile 2 (see `turn_offsets`).
pub fn rotate_piece(piece: &mut Piece)
    requires
        old(piece).tiles.len() >= 1,
        old(piece).tiles.len() < 4 ==> !turning_kind(old(piece).tiles@[0].color),
        turn_in_range(old(piece).tiles@),
    ensures
        final(piece).tiles@ == turned(old(piece).tiles@),
{
    if piece.tiles.len() < 4 {
        return;
    }
    let p2 = piece.tiles[2].pos;
    match turn_offsets_exec(&piece.tiles) {
        Some((o0, o1, o3)) => {
            move_tile(&mut piece.tiles, 0, p2, o0);
            move_tile(&mut piece.tiles, 1, p2, o1);
            move_tile(&mut piece.tiles, 3, p2, o3);
        },
        None => {},
    }
}

/// The colour of the `k`-th kind of piece: the bar, the two hooks, the two
/// zigzags, the square and the tee.
pub open spec fn spawn_color(k: int) -> u32 {
    if k == 0 {
        CYAN
    } else if k == 1 {
        DARK_BLUE
    } else if k == 2 {
        ORANGE
    } else if k == 3 {
        RED
    } else if k == 4 {
        GREEN
    } else if k == 5 {
        YELLOW
    } else {
        PURPLE
    }
}

/// Where the tiles of the `k`-th kind of piece appear, in the top two rows.
pub open spec fn spawn_positions(k: int) -> Seq<(usize, usize)> {
    if k == 0 {
        seq![(3usize, 0usize), (4usize, 0usize), (5usize, 0usize), (6usize, 0usize)]
    } else if k == 1 {
        seq![(4usize, 0usize), (4usize, 1usize), (5usize, 1usize), (6usize, 1usize)]
    } else if k == 2 {
        seq![(6usize, 0usize), (6usize, 1usize), (5usize, 1usize), (4usize, 1usize)]
    } else if k == 3 {
        seq![(4usize, 0usize), (5usize, 0usize), (5usize, 1usize), (6usize, 1usize)]
    } else if k == 4 {
        seq![(6usize, 0usize), (5usize, 0usize), (5usize, 1usize), (4usize, 1usize)]
    } else if k == 5 {
        seq![(4usize, 0usize), (5usize, 0usize), (4usize, 1usize), (5usize, 1usize)]
    } else {
        seq![(5usize, 0usize), (4usize, 1usize), (5usize, 1usize), (6usize, 1usize)]
    }
}

/// The tiles of a new piece of the `k`-th kind.
pub open spec fn spawned(k: int) -> Seq<Tile> {
    Seq::new(4, |i: int| Tile { pos: spawn_positions(k)[i], color: unpack_argb(spawn_color(k)) })
}

/// A new piece of kind `random % 7` (see `spawn_color`), where `random` is a
/// random number.
pub fn spawn_piece(random: usize) -> (p: Piece)
    ensures
        p.tiles@ == spawned((random % 7) as int),
        p.tiles@.len() == 4,
        forall|i: int| 0 <= i < 4 ==> #[trigger] p.tiles@[i] == (Tile {
            pos: spawn_positions((random % 7) as int)[i],
            color: unpack_argb(spawn_color((random % 7) as int)),
        }),
{
    let colors: [u32; 7] = [CYAN, DARK_BLUE, ORANGE, RED, GREEN, YELLOW, PURPLE];
    let idx = random % 7;
    let color = Color::from_hex(colors[idx]);
    assert(colors[idx as int] == spawn_color(idx as int));
    let p = if idx == 0 {
        Piece { tiles: vec![Tile::new(3, 0, color), Tile::new(4, 0, color), Tile::new(5, 0, color), Tile::new(6, 0, color)] }
    } else if idx == 1 {
        Piece { tiles: vec![Tile::new(4, 0, color), Tile::new(4, 1, color), Tile::new(5, 1, color), Tile::new(6, 1, color)] }
    } else if idx == 2 {
        Piece { tiles: vec![Tile::new(6, 0, color), Tile::new(6, 1, color), Tile::new(5, 1, color), Tile::new(4, 1, color)] }
    } else if idx == 3 {
        Piece { tiles: vec![Tile::new(4, 0, color), Tile::new(5, 0, color), Tile::new(5, 1, color), Tile::new(6, 1, color)] }
    } else if idx == 4 {
        Piece { tiles: vec![Tile::new(6, 0, color), Tile::new(5, 0, color), Tile::new(5, 1, color), Tile::new(4, 1, color)] }
    } else if idx == 5 {
        Piece { tiles: vec![Tile::new(4, 0, color), Tile::new(5, 0, color), Tile::new(4, 1, color), Tile::new(5, 1, color)] }
    } else {
        Piece { tiles: vec![Tile::new(5, 0, color), Tile::new(4, 1, color), Tile::new(5, 1, color), Tile::new(6, 1, color)] }
    };
    assert(p.tiles@ =~= spawned(idx as int));
    p
}

/// The piece moved one row down.
pub open spec fn lowered(t: Seq<Tile>) -> Seq<Tile> {
    Seq::new(t.len(), |i: int| Tile { pos: (t[i].pos.0, (t[i].pos.1 + 1) as usize), color: t[i].color })
}

/// One step of the falling piece: it moves one row down where it still fits
/// there; otherwise it lands on the board (see `landed`) and a new piece of
/// kind `random % 7` takes its place.
pub fn drop_tick(board: &mut Vec<Tile>, piece: &mut Piece, random: usize)
    requires
        board_wf(old(board)@),
        over_board(old(piece).tiles@, old(board)@),
    ensures
        piece_fits(lowered(old(piece).tiles@), old(board)@) ==> final(board)@ == old(board)@
            && final(piece).tiles@ == lowered(old(piece).tiles@),
        !piece_fits(lowered(old(piece).tiles@), old(board)@) ==> final(board)@ == landed(
            old(board)@,
            old(piece).tiles@,
        ) && final(piece).tiles@ == spawned((random % 7) as int),
{
    let ghost t0 = piece.tiles@;
    let mut tiles: Vec<Tile> = Vec::new();
    for k in 0..piece.tiles.len()
        invariant
            t0 == piece.tiles@,
            over_board(t0, board@),
            board@.len() == TILES_X * TILES_Y,
            tiles@ == lowered(t0).take(k as int),
    {
        assert(cell_of(t0[k as int]) < TILES_X * TILES_Y);
        let (x, y) = piece.tiles[k].pos;
        tiles.push(Tile { pos: (x, y + 1), color: piece.tiles[k].color });
        assert(tiles@ =~= lowered(t0).take(k + 1));
    }
    assert(tiles@ =~= lowered(t0));
    let new_piece = Piece { tiles };
    assert(cells_readable(new_piece.tiles@, board@)) by {
        assert forall|i: int|
            0 <= i < new_piece.tiles@.len() && on_board(#[trigger] new_piece.tiles@[i]) implies cell_of(
            new_piece.tiles@[i],
        ) < board@.len() by {}
    }
    if new_piece.is_valid(board) {
        *piece = new_piece;
    } else {
        land_piece(board, piece);
        *piece = spawn_piece(random);
    }
}

/// Some tile of the piece is in the first column or the bottom row, so the
/// piece does not move left.
pub open spec fn left_blocked(t: Seq<Tile>) -> bool {
    exists|i: int| 0 <= i < t.len() && ((#[trigger] t[i]).pos.0 == 0 || t[i].pos.1 == TILES_Y - 1)
}

/// Some tile of the piece is in the last column or the bottom row, so the
/// piece does not move right.
pub open spec fn right_blocked(t: Seq<Tile>) -> bool {
    exists|i: int|
        0 <= i < t.len() && ((#[trigger] t[i]).pos.0 == TILES_X - 1 || t[i].pos.1 == TILES_Y - 1)
}

/// The piece moved one column left (no tile being in the first column).
pub open spec fn moved_left(t: Seq<Tile>) -> Seq<Tile> {
    Seq::new(t.len(), |i: int| Tile { pos: ((t[i].pos.0 - 1) as usize, t[i].pos.1), color: t[i].color })
}

/// The piece moved one column right, no tile going past the last column.
pub open spec fn moved_right(t: Seq<Tile>) -> Seq<Tile> {
    Seq::new(
        t.len(),
        |i: int|
            Tile {
                pos: (
                    if t[i].pos.0 + 1 < TILES_X - 1 {
                        (t[i].pos.0 + 1) as usize
                    } else {
                        (TILES_X - 1) as usize
                    },
                    t[i].pos.1,
                ),
                color: t[i].color,
            },
    )
}

/// Moves the piece one column left unless it is blocked (see `left_blocked`).
pub fn shift_left(piece: &mut Piece)
    ensures
        final(piece).tiles@ == if left_blocked(old(piece).tiles@) {
            old(piece).tiles@
        } else {
            moved_left(old(piece).tiles@)
        },
{
    let ghost t0 = piece.tiles@;
    let mut i: usize = 0;
    while i < piece.tiles.len()
        invariant
            t0 == piece.tiles@,
            i <= t0.len(),
            forall|j: int| 0 <= j < i ==> !((#[trigger] t0[j]).pos.0 == 0 || t0[j].pos.1 == TILES_Y - 1),
        decreases piece.tiles.len() - i,
    {
        let (x, y) = piece.tiles[i].pos;
        if x == 0 || y == TILES_Y - 1 {
            assert(left_blocked(t0) && t0[i as int] == piece.tiles@[i as int]);
            return;
        }
        i = i + 1;
    }
    let n = piece.tiles.len();
    for k in 0..n
        invariant
            n == t0.len(),
            piece.tiles@.len() == t0.len(),
            forall|j: int| 0 <= j < t0.len() ==> (#[trigger] t0[j]).pos.0 > 0,
            forall|j: int| 0 <= j < k ==> #[trigger] piece.tiles@[j] == moved_left(t0)[j],
            forall|j: int| k <= j < t0.len() ==> #[trigger] piece.tiles@[j] == t0[j],
    {
        let t = piece.tiles[k];
        if t.pos.0 > 0 {
            piece.tiles.set(k, Tile { pos: (t.pos.0 - 1, t.pos.1), color: t.color });
        }
    }
    assert(piece.tiles@ =~= moved_left(t0));
}

/// Moves the piece one column right unless it is blocked (see
/// `right_blocked`).
pub fn shift_right(piece: &mut Piece)
    requires
        !right_blocked(old(piece).tiles@) ==> forall|i: int|
            0 <= i < old(piece).tiles@.len() ==> (#[trigger] old(piece).tiles@[i]).pos.0 < usize::MAX,
    ensures
        final(piece).tiles@ == if right_blocked(old(piece).tiles@) {
            old(piece).tiles@
        } else {
            moved_right(old(piece).tiles@)
        },
{
    let ghost t0 = piece.tiles@;
    let mut i: usize = 0;
    while i < piece.tiles.len()
        invariant
            t0 == piece.tiles@,
            i <= t0.len(),
            forall|j: int|
                0 <= j < i ==> !((#[trigger] t0[j]).pos.0 == TILES_X - 1 || t0[j].pos.1 == TILES_Y - 1),
        decreases piece.tiles.len() - i,
    {
        let (x, y) = piece.tiles[i].pos;
        if x == TILES_X - 1 || y == TILES_Y - 1 {
            assert(right_blocked(t0) && t0[i as int] == piece.tiles@[i as int]);
            return;
        }
        i = i + 1;
    }
    assert(!right_blocked(t0));
    let n = piece.tiles.len();
    for k in 0..n
        invariant
            n == t0.len(),
            piece.tiles@.len() == t0.len(),
            forall|j: int| 0 <= j < t0.len() ==> (#[trigger] t0[j]).pos.0 < usize::MAX,
            forall|j: int| 0 <= j < k ==> #[trigger] piece.tiles@[j] == moved_right(t0)[j],
            forall|j: int| k <= j < t0.len() ==> #[trigger] piece.tiles@[j] == t0[j],
    {
        let t = piece.tiles[k];
        let x = t.pos.0 + 1;
        let x = if x < TILES_X - 1 {
            x
        } else {
            TILES_X - 1
        };
        piece.tiles.set(k, Tile { pos: (x, t.pos.1), color: t.color });
    }
    assert(piece.tiles@ =~= moved_right(t0));
}

/// The cell under tile `t` once it is lowered by `d` rows.
pub open spec fn cell_below(t: Tile, d: int) -> int {
    (t.pos.1 + d + 1) * TILES_X + t.pos.0
}

/// Tile `t`, lowered by `d` rows, rests on the bottom row or on a filled cell.
pub open spec fn rests(b: Seq<Tile>, t: Tile, d: int) -> bool {
    ||| t.pos.1 + d == TILES_Y - 1
    ||| cell_below(t, d) < b.len() && b[cell_below(t, d)].color != bg()
}

/// Some tile of the piece, lowered by `d` rows, rests.
pub open spec fn any_rests(b: Seq<Tile>, t: Seq<Tile>, d: int) -> bool {
    exists|j: int| 0 <= j < t.len() && rests(b, #[trigger] t[j], d)
}

/// Looking for a resting tile of the piece lowered by `d` rows, tile by tile
/// until one rests, reads only cells of the board.
pub open spec fn rest_scan_in_board(b: Seq<Tile>, t: Seq<Tile>, d: int) -> bool {
    forall|j: int|
        0 <= j < t.len() && (forall|m: int| 0 <= m < j ==> !rests(b, #[trigger] t[m], d))
            && t[j].pos.1 + d != TILES_Y - 1 ==> cell_below(#[trigger] t[j], d) < b.len()
}

/// Dropping the piece from `d` rows down reads only cells of the board and
/// comes to rest.
pub open spec fn drop_ok(b: Seq<Tile>, t: Seq<Tile>, d: nat) -> bool
    decreases TILES_Y - d,
{
    if d >= TILES_Y {
        false
    } else {
        rest_scan_in_board(b, t, d as int) && (any_rests(b, t, d as int) || drop_ok(
            b,
            t,
            d + 1,
        ))
    }
}

/// How many rows the piece falls, from `d` rows down, until it rests.
pub open spec fn drop_depth(b: Seq<Tile>, t: Seq<Tile>, d: nat) -> nat
    decreases TILES_Y - d,
{
    if d >= TILES_Y || any_rests(b, t, d as int) {
        d
    } else {
        drop_depth(b, t, d + 1)
    }
}

/// The piece moved `d` rows down.
pub open spec fn lowered_by(t: Seq<Tile>, d: int) -> Seq<Tile> {
    Seq::new(t.len(), |i: int| Tile { pos: (t[i].pos.0, (t[i].pos.1 + d) as usize), color: t[i].color })
}

/// Drops the piece straight down until one of its tiles rests on the bottom
/// row or on a filled cell.
pub fn hard_drop(board: &[Tile], piece: &mut Piece)
    requires
        board@.len() == TILES_X * TILES_Y,
        drop_ok(board@, old(piece).tiles@, 0),
    ensures
        final(piece).tiles@ == lowered_by(old(piece).tiles@, drop_depth(board@, old(piece).tiles@, 0) as int),
{
    let ghost t0 = piece.tiles@;
    let ghost mut d: nat = 0;
    let blen = board.len();
    assert(piece.tiles@ =~= lowered_by(t0, 0));
    loop
        invariant
            blen == board@.len() == TILES_X * TILES_Y,
            d < TILES_Y,
            forall|j: int| 0 <= j < t0.len() ==> #[trigger] t0[j].pos.1 + d <= usize::MAX,
            piece.tiles@ == lowered_by(t0, d as int),
            drop_ok(board@, t0, d),
            drop_depth(board@, t0, 0) == drop_depth(board@, t0, d),
        ensures
            piece.tiles@ == lowered_by(t0, drop_depth(board@, t0, 0) as int),
        decreases TILES_Y - d,
    {
        let mut rest = false;
        let mut i: usize = 0;
        while i < piece.tiles.len() && !rest
            invariant
                blen == board@.len(),
                d < TILES_Y,
                forall|j: int| 0 <= j < t0.len() ==> #[trigger] t0[j].pos.1 + d <= usize::MAX,
                piece.tiles@ == lowered_by(t0, d as int),
                rest_scan_in_board(board@, t0, d as int),
                i <= t0.len(),
                rest ==> any_rests(board@, t0, d as int),
                !rest ==> forall|m: int| 0 <= m < i ==> !rests(board@, #[trigger] t0[m], d as int),
            decreases t0.len() - i,
        {
            let (x, y) = piece.tiles[i].pos;
            assert(t0[i as int].pos.1 + d <= usize::MAX);
            assert(t0[i as int].pos.1 + d == y);
            if y == TILES_Y - 1 {
                assert(rests(board@, t0[i as int], d as int));
                rest = true;
            } else {
                assert(cell_below(t0[i as int], d as int) < board@.len());
                let idx = pos_to_idx(x, y + 1);
                if !board[idx].is_empty() {
                    assert(rests(board@, t0[i as int], d as int));
                    rest = true;
                }
            }
            i = i + 1;
        }
        if rest {
            assert(drop_depth(board@, t0, d) == d);
            break;
        }
        proof {
            assert(!any_rests(board@, t0, d as int));
            assert(drop_ok(board@, t0, d + 1));
            assert(d + 1 < TILES_Y);
        }
        let n = piece.tiles.len();
        for k in 0..n
            invariant
                n == t0.len(),
                board@.len() == TILES_X * TILES_Y,
                d < TILES_Y,
                forall|j: int| 0 <= j < t0.len() ==> #[trigger] t0[j].pos.1 + d <= usize::MAX,
                rest_scan_in_board(board@, t0, d as int),
                !any_rests(board@, t0, d as int),
                forall|j: int| 0 <= j < k ==> #[trigger] piece.tiles@[j] == lowered_by(t0, d + 1int)[j],
                forall|j: int| k <= j < n ==> #[trigger] piece.tiles@[j] == lowered_by(t0, d as int)[j],
                piece.tiles@.len() == n,
        {
            proof {
                assert(!rests(board@, t0[k as int], d as int));
                assert(cell_below(t0[k as int], d as int) < board@.len());
                assert(t0[k as int].pos.1 + d + 1 < TILES_Y);
            }
            let t = piece.tiles[k];
            let y = t.pos.1 + 1;
            let y = if y < TILES_Y - 1 {
                y
            } else {
                TILES_Y - 1
            };
            piece.tiles.set(k, Tile { pos: (t.pos.0, y), color: t.color });
        }
        proof {
            assert(piece.tiles@ =~= lowered_by(t0, d + 1int));
            assert forall|j: int| 0 <= j < t0.len() implies #[trigger] t0[j].pos.1 + d + 1 <= usize::MAX by {
                assert(!rests(board@, t0[j], d as int));
            }
            d = d + 1;
        }
    }
}

proof fn lemma_row_count_outside(b: Seq<Tile>, r: int, n: int)
    requires
        board_wf(b),
        0 <= r,
        0 <= n <= b.len(),
        n <= r * TILES_X,
    ensures
        row_count(b, r, n) == 0,
    decreases n,
{
    if n > 0 {
        lemma_row_count_outside(b, r, n - 1);
        lemma_idx_pos_roundtrip((n - 1) as usize);
    }
}

proof fn lemma_row_count_inside(b: Seq<Tile>, r: int, n: int)
    requires
        board_wf(b),
        0 <= r < TILES_Y,
        r * TILES_X <= n <= r * TILES_X + TILES_X,
    ensures
        row_count(b, r, n) <= n - r * TILES_X,
        row_count(b, r, n) == n - r * TILES_X <==> forall|x: int|
            0 <= x < n - r * TILES_X ==> #[trigger] b[r * TILES_X + x].color != bg(),
    decreases n,
{
    if n == r * TILES_X {
        lemma_row_count_outside(b, r, n);
    } else {
        lemma_row_count_inside(b, r, n - 1);
        lemma_pos_idx_roundtrip((n - 1 - r * TILES_X) as usize, r as usize);
        let last = n - 1 - r * TILES_X;
        if row_count(b, r, n) == n - r * TILES_X {
            assert forall|x: int| 0 <= x < n - r * TILES_X implies #[trigger] b[r * TILES_X
                + x].color != bg() by {
                if x < last {
                }
            }
        }
    }
}

proof fn lemma_row_count_after(b: Seq<Tile>, r: int, n: int)
    requires
        board_wf(b),
        0 <= r < TILES_Y,
        r * TILES_X + TILES_X <= n <= b.len(),
    ensures
        row_count(b, r, n) == row_count(b, r, r * TILES_X + TILES_X),
    decreases n,
{
    if n > r * TILES_X + TILES_X {
        lemma_row_count_after(b, r, n - 1);
        lemma_idx_pos_roundtrip((n - 1) as usize);
    }
}

/// On the board, a row is complete exactly when every cell in it is filled.
pub proof fn lemma_row_complete_iff_filled(b: Seq<Tile>, r: int)
    requires
        board_wf(b),
        0 <= r < TILES_Y,
    ensures
        row_complete(b, r) <==> forall|x: int|
            0 <= x < TILES_X ==> #[trigger] b[r * TILES_X + x].color != bg(),
{
    lemma_row_count_inside(b, r, r * TILES_X + TILES_X);
    lemma_row_count_after(b, r, b.len() as int);
}

/// Landing a piece keeps the board's cells where they are: it only changes
/// colours.
pub proof fn lemma_landed_keeps_board(b: Seq<Tile>, t: Seq<Tile>)
    requires
        board_wf(b),
        over_board(t, b),
    ensures
        board_wf(landed(b, t)),
{
    lemma_locked_keeps_cells(b, t);
    lemma_rows_cleared_keeps_cells(locked(b, t), t);
}

/// A dropped piece comes to rest: after it falls `drop_depth` rows, one of
/// its tiles lies on the bottom row or on a filled cell.
pub proof fn lemma_hard_drop_rests(b: Seq<Tile>, t: Seq<Tile>, d: nat)
    requires
        drop_ok(b, t, d),
    ensures
        drop_depth(b, t, d) < TILES_Y,
        any_rests(b, t, drop_depth(b, t, d) as int),
    decreases TILES_Y - d,
{
    if !any_rests(b, t, d as int) {
        lemma_hard_drop_rests(b, t, d + 1);
    }
}

/// The piece moved `dx` columns right and `dy` rows down.
pub open spec fn translated(t: Seq<Tile>, dx: int, dy: int) -> Seq<Tile> {
    Seq::new(
        t.len(),
        |i: int| Tile { pos: ((t[i].pos.0 + dx) as usize, (t[i].pos.1 + dy) as usize), color: t[i].color },
    )
}

/// The piece after `n` turns.
pub open spec fn turned_times(t: Seq<Tile>, n: nat) -> Seq<Tile>
    decreases n,
{
    if n == 0 {
        t
    } else {
        turned(turned_times(t, (n - 1) as nat))
    }
}

/// `q` has the four tiles of `p`, with their colours, and `p`'s tile 2.
pub open spec fn same_shape_parts(p: Seq<Tile>, q: Seq<Tile>) -> bool {
    &&& q.len() == 4
    &&& q[2] == p[2]
    &&& forall|i: int| 0 <= i < 4 ==> #[trigger] q[i].color == p[i].color
}

/// Four tiles of colour `c` at the given cells.
spec fn tiles4(c: Color, a: (int, int), b: (int, int), d: (int, int), e: (int, int)) -> Seq<Tile> {
    seq![
        Tile { pos: (a.0 as usize, a.1 as usize), color: c },
        Tile { pos: (b.0 as usize, b.1 as usize), color: c },
        Tile { pos: (d.0 as usize, d.1 as usize), color: c },
        Tile { pos: (e.0 as usize, e.1 as usize), color: c },
    ]
}

proof fn lemma_palette_distinct()
    ensures
        unpack_argb(CYAN) != unpack_argb(DARK_BLUE),
        unpack_argb(CYAN) != unpack_argb(ORANGE),
        unpack_argb(CYAN) != unpack_argb(RED),
        unpack_argb(CYAN) != unpack_argb(GREEN),
        unpack_argb(CYAN) != unpack_argb(PURPLE),
        unpack_argb(CYAN) != unpack_argb(YELLOW),
        unpack_argb(DARK_BLUE) != unpack_argb(ORANGE),
        unpack_argb(DARK_BLUE) != unpack_argb(RED),
        unpack_argb(DARK_BLUE) != unpack_argb(GREEN),
        unpack_argb(DARK_BLUE) != unpack_argb(PURPLE),
        unpack_argb(DARK_BLUE) != unpack_argb(YELLOW),
        unpack_argb(ORANGE) != unpack_argb(RED),
        unpack_argb(ORANGE) != unpack_argb(GREEN),
        unpack_argb(ORANGE) != unpack_argb(PURPLE),
        unpack_argb(ORANGE) != unpack_argb(YELLOW),
        unpack_argb(RED) != unpack_argb(GREEN),
        unpack_argb(RED) != unpack_argb(PURPLE),
        unpack_argb(RED) != unpack_argb(YELLOW),
        unpack_argb(GREEN) != unpack_argb(PURPLE),
        unpack_argb(GREEN) != unpack_argb(YELLOW),
        unpack_argb(PURPLE) != unpack_argb(YELLOW),
{
    assert(unpack_argb(CYAN) == Color { r: 0, g: 0x7f, b: 0x7f, a: 0xff });
    assert(unpack_argb(DARK_BLUE) == Color { r: 0, g: 0, b: 0x7f, a: 0xff });
    assert(unpack_argb(ORANGE) == Color { r: 0xff, g: 0x7f, b: 0, a: 0xff });
    assert(unpack_argb(RED) == Color { r: 0xff, g: 0, b: 0, a: 0xff });
    assert(unpack_argb(GREEN) == Color { r: 0, g: 0xff, b: 0, a: 0xff });
    assert(unpack_argb(PURPLE) == Color { r: 0x7f, g: 0, b: 0x7f, a: 0xff });
    assert(unpack_argb(YELLOW) == Color { r: 0xff, g: 0xff, b: 0, a: 0xff });
}

proof fn lemma_turns_bar(x: int, y: int)
    requires
        2 <= x,
        2 <= y,
        x + 1 <= usize::MAX,
        y + 1 <= usize::MAX,
    ensures
        turn_in_range(tiles4(unpack_argb(CYAN), (x - 2, y), (x - 1, y), (x, y), (x + 1, y))),
        turned(tiles4(unpack_argb(CYAN), (x - 2, y), (x - 1, y), (x, y), (x + 1, y))) == tiles4(unpack_argb(CYAN), (x, y - 2), (x, y - 1), (x, y), (x, y + 1)),
        turn_in_range(tiles4(unpack_argb(CYAN), (x, y - 2), (x, y - 1), (x, y), (x, y + 1))),
        turned(tiles4(unpack_argb(CYAN), (x, y - 2), (x, y - 1), (x, y), (x, y + 1))) == tiles4(unpack_argb(CYAN), (x - 2, y), (x - 1, y), (x, y), (x + 1, y)),
{
    lemma_palette_distinct();
    assert(turned(tiles4(unpack_argb(CYAN), (x - 2, y), (x - 1, y), (x, y), (x + 1, y))) =~= tiles4(unpack_argb(CYAN), (x, y - 2), (x, y - 1), (x, y), (x, y + 1)));
    assert(turned(tiles4(unpack_argb(CYAN), (x, y - 2), (x, y - 1), (x, y), (x, y + 1))) =~= tiles4(unpack_argb(CYAN), (x - 2, y), (x - 1, y), (x, y), (x + 1, y)));
}

proof fn lemma_turns_hook_left(x: int, y: int)
    requires
        2 <= x,
        2 <= y,
        x + 1 <= usize::MAX,
        y + 1 <= usize::MAX,
    ensures
        turn_in_range(tiles4(unpack_argb(DARK_BLUE), (x - 1, y - 1), (x - 1, y), (x, y), (x + 1, y))),
        turned(tiles4(unpack_argb(DARK_BLUE), (x - 1, y - 1), (x - 1, y), (x, y), (x + 1, y))) == tiles4(unpack_argb(DARK_BLUE), (x + 1, y - 1), (x, y - 1), (x, y), (x, y + 1)),
        turn_in_range(tiles4(unpack_argb(DARK_BLUE), (x + 1, y - 1), (x, y - 1), (x, y), (x, y + 1))),
        turned(tiles4(unpack_argb(DARK_BLUE), (x + 1, y - 1), (x, y - 1), (x, y), (x, y + 1))) == tiles4(unpack_argb(DARK_BLUE), (x + 1, y + 1), (x + 1, y), (x, y), (x - 1, y)),
        turn_in_range(tiles4(unpack_argb(DARK_BLUE), (x + 1, y + 1), (x + 1, y), (x, y), (x - 1, y))),
        turned(tiles4(unpack_argb(DARK_BLUE), (x + 1, y + 1), (x + 1, y), (x, y), (x - 1, y))) == tiles4(unpack_argb(DARK_BLUE), (x - 1, y + 1), (x, y + 1), (x, y), (x, y - 1)),
        turn_in_range(tiles4(unpack_argb(DARK_BLUE), (x - 1, y + 1), (x, y + 1), (x, y), (x, y - 1))),
        turned(tiles4(unpack_argb(DARK_BLUE), (x - 1, y + 1), (x, y + 1), (x, y), (x, y - 1))) == tiles4(unpack_argb(DARK_BLUE), (x - 1, y - 1), (x - 1, y), (x, y), (x + 1, y)),
{
    lemma_palette_distinct();
    assert(turned(tiles4(unpack_argb(DARK_BLUE), (x - 1, y - 1), (x - 1, y), (x, y), (x + 1, y))) =~= tiles4(unpack_argb(DARK_BLUE), (x + 1, y - 1), (x, y - 1), (x, y), (x, y + 1)));
    assert(turned(tiles4(unpack_argb(DARK_BLUE), (x + 1, y - 1), (x, y - 1), (x, y), (x, y + 1))) =~= tiles4(unpack_argb(DARK_BLUE), (x + 1, y + 1), (x + 1, y), (x, y), (x - 1, y)));
    assert(turned(tiles4(unpack_argb(DARK_BLUE), (x + 1, y + 1), (x + 1, y), (x, y), (x - 1, y))) =~= tiles4(unpack_argb(DARK_BLUE), (x - 1, y + 1), (x, y + 1), (x, y), (x, y - 1)));
    assert(turned(tiles4(unpack_argb(DARK_BLUE), (x - 1, y + 1), (x, y + 1), (x, y), (x, y - 1))) =~= tiles4(unpack_argb(DARK_BLUE), (x - 1, y - 1), (x - 1, y), (x, y), (x + 1, y)));
}

proof fn lemma_turns_hook_right(x: int, y: int)
    requires
        2 <= x,
        2 <= y,
        x + 1 <= usize::MAX,
        y + 1 <= usize::MAX,
    ensures
        turn_in_range(tiles4(unpack_argb(ORANGE), (x + 1, y - 1), (x + 1, y), (x, y), (x - 1, y))),
        turned(tiles4(unpack_argb(ORANGE), (x + 1, y - 1), (x + 1, y), (x, y), (x - 1, y))) == tiles4(unpack_argb(ORANGE), (x + 1, y + 1), (x, y + 1), (x, y), (x, y - 1)),
        turn_in_range(tiles4(unpack_argb(ORANGE), (x + 1, y + 1), (x, y + 1), (x, y), (x, y - 1))),
        turned(tiles4(unpack_argb(ORANGE), (x + 1, y + 1), (x, y + 1), (x, y), (x, y - 1))) == tiles4(unpack_argb(ORANGE), (x - 1, y + 1), (x - 1, y), (x, y), (x + 1, y)),
        turn_in_range(tiles4(unpack_argb(ORANGE), (x - 1, y + 1), (x - 1, y), (x, y), (x + 1, y))),
        turned(tiles4(unpack_argb(ORANGE), (x - 1, y + 1), (x - 1, y), (x, y), (x + 1, y))) == tiles4(unpack_argb(ORANGE), (x - 1, y - 1), (x, y - 1), (x, y), (x, y + 1)),
        turn_in_range(tiles4(unpack_argb(ORANGE), (x - 1, y - 1), (x, y - 1), (x, y), (x, y + 1))),
        turned(tiles4(unpack_argb(ORANGE), (x - 1, y - 1), (x, y - 1), (x, y), (x, y + 1))) == tiles4(unpack_argb(ORANGE), (x + 1, y - 1), (x + 1, y), (x, y), (x - 1, y)),
{
    lemma_palette_distinct();
    assert(turned(tiles4(unpack_argb(ORANGE), (x + 1, y - 1), (x + 1, y), (x, y), (x - 1, y))) =~= tiles4(unpack_argb(ORANGE), (x + 1, y + 1), (x, y + 1), (x, y), (x, y - 1)));
    assert(turned(tiles4(unpack_argb(ORANGE), (x + 1, y + 1), (x, y + 1), (x, y), (x, y - 1))) =~= tiles4(unpack_argb(ORANGE), (x - 1, y + 1), (x - 1, y), (x, y), (x + 1, y)));
    assert(turned(tiles4(unpack_argb(ORANGE), (x - 1, y + 1), (x - 1, y), (x, y), (x + 1, y))) =~= tiles4(unpack_argb(ORANGE), (x - 1, y - 1), (x, y - 1), (x, y), (x, y + 1)));
    assert(turned(tiles4(unpack_argb(ORANGE), (x - 1, y - 1), (x, y - 1), (x, y), (x, y + 1))) =~= tiles4(unpack_argb(ORANGE), (x + 1, y - 1), (x + 1, y), (x, y), (x - 1, y)));
}

proof fn lemma_turns_zigzag_red(x: int, y: int)
    requires
        2 <= x,
        2 <= y,
        x + 1 <= usize::MAX,
        y + 1 <= usize::MAX,
    ensures
        turn_in_range(tiles4(unpack_argb(RED), (x - 1, y - 1), (x, y - 1), (x, y), (x + 1, y))),
        turned(tiles4(unpack_argb(RED), (x - 1, y - 1), (x, y - 1), (x, y), (x + 1, y))) == tiles4(unpack_argb(RED), (x + 1, y - 1), (x + 1, y), (x, y), (x, y + 1)),
        turn_in_range(tiles4(unpack_argb(RED), (x + 1, y - 1), (x + 1, y), (x, y), (x, y + 1))),
        turned(tiles4(unpack_argb(RED), (x + 1, y - 1), (x + 1, y), (x, y), (x, y + 1))) == tiles4(unpack_argb(RED), (x - 1, y - 1), (x, y - 1), (x, y), (x + 1, y)),
{
    lemma_palette_distinct();
    assert(turned(tiles4(unpack_argb(RED), (x - 1, y - 1), (x, y - 1), (x, y), (x + 1, y))) =~= tiles4(unpack_argb(RED), (x + 1, y - 1), (x + 1, y), (x, y), (x, y + 1)));
    assert(turned(tiles4(unpack_argb(RED), (x + 1, y - 1), (x + 1, y), (x, y), (x, y + 1))) =~= tiles4(unpack_argb(RED), (x - 1, y - 1), (x, y - 1), (x, y), (x + 1, y)));
}

proof fn lemma_turns_zigzag_green(x: int, y: int)
    requires
        2 <= x,
        2 <= y,
        x + 1 <= usize::MAX,
        y + 1 <= usize::MAX,
    ensures
        turn_in_range(tiles4(unpack_argb(GREEN), (x + 1, y - 1), (x, y - 1), (x, y), (x - 1, y))),
        turned(tiles4(unpack_argb(GREEN), (x + 1, y - 1), (x, y - 1), (x, y), (x - 1, y))) == tiles4(unpack_argb(GREEN), (x - 1, y - 1), (x - 1, y), (x, y), (x, y + 1)),
        turn_in_range(tiles4(unpack_argb(GREEN), (x - 1, y - 1), (x - 1, y), (x, y), (x, y + 1))),
        turned(tiles4(unpack_argb(GREEN), (x - 1, y - 1), (x - 1, y), (x, y), (x, y + 1))) == tiles4(unpack_argb(GREEN), (x + 1, y - 1), (x, y - 1), (x, y), (x - 1, y)),
{
    lemma_palette_distinct();
    assert(turned(tiles4(unpack_argb(GREEN), (x + 1, y - 1), (x, y - 1), (x, y), (x - 1, y))) =~= tiles4(unpack_argb(GREEN), (x - 1, y - 1), (x - 1, y), (x, y), (x, y + 1)));
    assert(turned(tiles4(unpack_argb(GREEN), (x - 1, y - 1), (x - 1, y), (x, y), (x, y + 1))) =~= tiles4(unpack_argb(GREEN), (x + 1, y - 1), (x, y - 1), (x, y), (x - 1, y)));
}

proof fn lemma_turns_tee(x: int, y: int)
    requires
        2 <= x,
        2 <= y,
        x + 1 <= usize::MAX,
        y + 1 <= usize::MAX,
    ensures
        turn_in_range(tiles4(unpack_argb(PURPLE), (x, y - 1), (x - 1, y), (x, y), (x + 1, y))),
        turned(tiles4(unpack_argb(PURPLE), (x, y - 1), (x - 1, y), (x, y), (x + 1, y))) == tiles4(unpack_argb(PURPLE), (x + 1, y), (x, y - 1), (x, y), (x, y + 1)),
        turn_in_range(tiles4(unpack_argb(PURPLE), (x + 1, y), (x, y - 1), (x, y), (x, y + 1))),
        turned(tiles4(unpack_argb(PURPLE), (x + 1, y), (x, y - 1), (x, y), (x, y + 1))) == tiles4(unpack_argb(PURPLE), (x, y + 1), (x - 1, y), (x, y), (x + 1, y)),
        turn_in_range(tiles4(unpack_argb(PURPLE), (x, y + 1), (x - 1, y), (x, y), (x + 1, y))),
        turned(tiles4(unpack_argb(PURPLE), (x, y + 1), (x - 1, y), (x, y), (x + 1, y))) == tiles4(unpack_argb(PURPLE), (x - 1, y), (x, y - 1), (x, y), (x, y + 1)),
        turn_in_range(tiles4(unpack_argb(PURPLE), (x - 1, y), (x, y - 1), (x, y), (x, y + 1))),
        turned(tiles4(unpack_argb(PURPLE), (x - 1, y), (x, y - 1), (x, y), (x, y + 1))) == tiles4(unpack_argb(PURPLE), (x, y - 1), (x - 1, y), (x, y), (x + 1, y)),
{
    lemma_palette_distinct();
    assert(turned(tiles4(unpack_argb(PURPLE), (x, y - 1), (x - 1, y), (x, y), (x + 1, y))) =~= tiles4(unpack_argb(PURPLE), (x + 1, y), (x, y - 1), (x, y), (x, y + 1)));
    assert(turned(tiles4(unpack_argb(PURPLE), (x + 1, y), (x, y - 1), (x, y), (x, y + 1))) =~= tiles4(unpack_argb(PURPLE), (x, y + 1), (x - 1, y), (x, y), (x + 1, y)));
    assert(turned(tiles4(unpack_argb(PURPLE), (x, y + 1), (x - 1, y), (x, y), (x + 1, y))) =~= tiles4(unpack_argb(PURPLE), (x - 1, y), (x, y - 1), (x, y), (x, y + 1)));
    assert(turned(tiles4(unpack_argb(PURPLE), (x - 1, y), (x, y - 1), (x, y), (x, y + 1))) =~= tiles4(unpack_argb(PURPLE), (x, y - 1), (x - 1, y), (x, y), (x + 1, y)));
}

/// The facts of a piece that turns in a cycle of `n` turns (4 or fewer):
/// each of its first four turns stays in range and keeps its tiles, colours
/// and tile 2, and `n` turns (so also four) give it back.
spec fn turn_cycle(p: Seq<Tile>, n: nat) -> bool {
    &&& forall|m: nat|
        m < 4 ==> turn_in_range(#[trigger] turned_times(p, m)) && same_shape_parts(
            p,
            turned_times(p, m + 1),
        )
    &&& turned_times(p, n) == p
    &&& turned_times(p, 4) == p
}

proof fn lemma_cycle_of_two(p: Seq<Tile>, a: Seq<Tile>)
    requires
        turn_in_range(p),
        turn_in_range(a),
        turned(p) == a,
        turned(a) == p,
        same_shape_parts(p, a),
        same_shape_parts(p, p),
    ensures
        turn_cycle(p, 2),
{
    reveal_with_fuel(turned_times, 5);
    assert(turned_times(p, 2) == p);
    assert(turned_times(p, 3) == a);
    assert(turned_times(p, 4) == p);
    assert forall|m: nat| m < 4 implies turn_in_range(#[trigger] turned_times(p, m)) && same_shape_parts(
        p,
        turned_times(p, m + 1),
    ) by {}
}

proof fn lemma_cycle_of_four(p: Seq<Tile>, a: Seq<Tile>, b: Seq<Tile>, c: Seq<Tile>)
    requires
        turn_in_range(p),
        turn_in_range(a),
        turn_in_range(b),
        turn_in_range(c),
        turned(p) == a,
        turned(a) == b,
        turned(b) == c,
        turned(c) == p,
        same_shape_parts(p, a),
        same_shape_parts(p, b),
        same_shape_parts(p, c),
        same_shape_parts(p, p),
    ensures
        turn_cycle(p, 4),
{
    reveal_with_fuel(turned_times, 5);
    assert(turned_times(p, 2) == b);
    assert(turned_times(p, 3) == c);
    assert(turned_times(p, 4) == p);
    assert forall|m: nat| m < 4 implies turn_in_range(#[trigger] turned_times(p, m)) && same_shape_parts(
        p,
        turned_times(p, m + 1),
    ) by {}
}

proof fn lemma_cycle_bar(x: int, y: int)
    requires
        2 <= x,
        2 <= y,
        x + 1 <= usize::MAX,
        y + 1 <= usize::MAX,
    ensures
        turn_cycle(tiles4(unpack_argb(CYAN), (x - 2, y), (x - 1, y), (x, y), (x + 1, y)), 2),
{
    lemma_turns_bar(x, y);
    lemma_cycle_of_two(tiles4(unpack_argb(CYAN), (x - 2, y), (x - 1, y), (x, y), (x + 1, y)), tiles4(unpack_argb(CYAN), (x, y - 2), (x, y - 1), (x, y), (x, y + 1)));
}

proof fn lemma_cycle_hook_left(x: int, y: int)
    requires
        2 <= x,
        2 <= y,
        x + 1 <= usize::MAX,
        y + 1 <= usize::MAX,
    ensures
        turn_cycle(tiles4(unpack_argb(DARK_BLUE), (x - 1, y - 1), (x - 1, y), (x, y), (x + 1, y)), 4),
{
    lemma_turns_hook_left(x, y);
    lemma_cycle_of_four(tiles4(unpack_argb(DARK_BLUE), (x - 1, y - 1), (x - 1, y), (x, y), (x + 1, y)), tiles4(unpack_argb(DARK_BLUE), (x + 1, y - 1), (x, y - 1), (x, y), (x, y + 1)), tiles4(unpack_argb(DARK_BLUE), (x + 1, y + 1), (x + 1, y), (x, y), (x - 1, y)), tiles4(unpack_argb(DARK_BLUE), (x - 1, y + 1), (x, y + 1), (x, y), (x, y - 1)));
}

proof fn lemma_cycle_hook_right(x: int, y: int)
    requires
        2 <= x,
        2 <= y,
        x + 1 <= usize::MAX,
        y + 1 <= usize::MAX,
    ensures
        turn_cycle(tiles4(unpack_argb(ORANGE), (x + 1, y - 1), (x + 1, y), (x, y), (x - 1, y)), 4),
{
    lemma_turns_hook_right(x, y);
    lemma_cycle_of_four(tiles4(unpack_argb(ORANGE), (x + 1, y - 1), (x + 1, y), (x, y), (x - 1, y)), tiles4(unpack_argb(ORANGE), (x + 1, y + 1), (x, y + 1), (x, y), (x, y - 1)), tiles4(unpack_argb(ORANGE), (x - 1, y + 1), (x - 1, y), (x, y), (x + 1, y)), tiles4(unpack_argb(ORANGE), (x - 1, y - 1), (x, y - 1), (x, y), (x, y + 1)));
}

proof fn lemma_cycle_zigzag_red(x: int, y: int)
    requires
        2 <= x,
        2 <= y,
        x + 1 <= usize::MAX,
        y + 1 <= usize::MAX,
    ensures
        turn_cycle(tiles4(unpack_argb(RED), (x - 1, y - 1), (x, y - 1), (x, y), (x + 1, y)), 2),
{
    lemma_turns_zigzag_red(x, y);
    lemma_cycle_of_two(tiles4(unpack_argb(RED), (x - 1, y - 1), (x, y - 1), (x, y), (x + 1, y)), tiles4(unpack_argb(RED), (x + 1, y - 1), (x + 1, y), (x, y), (x, y + 1)));
}

proof fn lemma_cycle_zigzag_green(x: int, y: int)
    requires
        2 <= x,
        2 <= y,
        x + 1 <= usize::MAX,
        y + 1 <= usize::MAX,
    ensures
        turn_cycle(tiles4(unpack_argb(GREEN), (x + 1, y - 1), (x, y - 1), (x, y), (x - 1, y)), 2),
{
    lemma_turns_zigzag_green(x, y);
    lemma_cycle_of_two(tiles4(unpack_argb(GREEN), (x + 1, y - 1), (x, y - 1), (x, y), (x - 1, y)), tiles4(unpack_argb(GREEN), (x - 1, y - 1), (x - 1, y), (x, y), (x, y + 1)));
}

proof fn lemma_cycle_tee(x: int, y: int)
    requires
        2 <= x,
        2 <= y,
        x + 1 <= usize::MAX,
        y + 1 <= usize::MAX,
    ensures
        turn_cycle(tiles4(unpack_argb(PURPLE), (x, y - 1), (x - 1, y), (x, y), (x + 1, y)), 4),
{
    lemma_turns_tee(x, y);
    lemma_cycle_of_four(tiles4(unpack_argb(PURPLE), (x, y - 1), (x - 1, y), (x, y), (x + 1, y)), tiles4(unpack_argb(PURPLE), (x + 1, y), (x, y - 1), (x, y), (x, y + 1)), tiles4(unpack_argb(PURPLE), (x, y + 1), (x - 1, y), (x, y), (x + 1, y)), tiles4(unpack_argb(PURPLE), (x - 1, y), (x, y - 1), (x, y), (x, y + 1)));
}

proof fn lemma_spawned_cycle_bar(dx: int, dy: int)
    requires
        5 + dx >= 2,
        0 + dy >= 2,
        5 + dx + 1 <= usize::MAX,
        0 + dy + 1 <= usize::MAX,
    ensures
        turn_cycle(translated(spawned(0), dx, dy), 2),
{
    let x = 5 + dx;
    let y = 0 + dy;
    assert(translated(spawned(0), dx, dy) =~= tiles4(unpack_argb(CYAN), (x - 2, y), (x - 1, y), (x, y), (x + 1, y)));
    lemma_cycle_bar(x, y);
}

proof fn lemma_spawned_cycle_hook_left(dx: int, dy: int)
    requires
        5 + dx >= 2,
        1 + dy >= 2,
        5 + dx + 1 <= usize::MAX,
        1 + dy + 1 <= usize::MAX,
    ensures
        turn_cycle(translated(spawned(1), dx, dy), 4),
{
    let x = 5 + dx;
    let y = 1 + dy;
    assert(translated(spawned(1), dx, dy) =~= tiles4(unpack_argb(DARK_BLUE), (x - 1, y - 1), (x - 1, y), (x, y), (x + 1, y)));
    lemma_cycle_hook_left(x, y);
}

proof fn lemma_spawned_cycle_hook_right(dx: int, dy: int)
    requires
        5 + dx >= 2,
        1 + dy >= 2,
        5 + dx + 1 <= usize::MAX,
        1 + dy + 1 <= usize::MAX,
    ensures
        turn_cycle(translated(spawned(2), dx, dy), 4),
{
    let x = 5 + dx;
    let y = 1 + dy;
    assert(translated(spawned(2), dx, dy) =~= tiles4(unpack_argb(ORANGE), (x + 1, y - 1), (x + 1, y), (x, y), (x - 1, y)));
    lemma_cycle_hook_right(x, y);
}

proof fn lemma_spawned_cycle_zigzag_red(dx: int, dy: int)
    requires
        5 + dx >= 2,
        1 + dy >= 2,
        5 + dx + 1 <= usize::MAX,
        1 + dy + 1 <= usize::MAX,
    ensures
        turn_cycle(translated(spawned(3), dx, dy), 2),
{
    let x = 5 + dx;
    let y = 1 + dy;
    assert(translated(spawned(3), dx, dy) =~= tiles4(unpack_argb(RED), (x - 1, y - 1), (x, y - 1), (x, y), (x + 1, y)));
    lemma_cycle_zigzag_red(x, y);
}

proof fn lemma_spawned_cycle_zigzag_green(dx: int, dy: int)
    requires
        5 + dx >= 2,
        1 + dy >= 2,
        5 + dx + 1 <= usize::MAX,
        1 + dy + 1 <= usize::MAX,
    ensures
        turn_cycle(translated(spawned(4), dx, dy), 2),
{
    let x = 5 + dx;
    let y = 1 + dy;
    assert(translated(spawned(4), dx, dy) =~= tiles4(unpack_argb(GREEN), (x + 1, y - 1), (x, y - 1), (x, y), (x - 1, y)));
    lemma_cycle_zigzag_green(x, y);
}

proof fn lemma_spawned_cycle_tee(dx: int, dy: int)
    requires
        5 + dx >= 2,
        1 + dy >= 2,
        5 + dx + 1 <= usize::MAX,
        1 + dy + 1 <= usize::MAX,
    ensures
        turn_cycle(translated(spawned(6), dx, dy), 4),
{
    let x = 5 + dx;
    let y = 1 + dy;
    assert(translated(spawned(6), dx, dy) =~= tiles4(unpack_argb(PURPLE), (x, y - 1), (x - 1, y), (x, y), (x + 1, y)));
    lemma_cycle_tee(x, y);
}

proof fn lemma_spawned_square_stays(dx: int, dy: int)
    requires
        4 + dx >= 2,
        1 + dy >= 2,
        4 + dx + 1 <= usize::MAX,
        1 + dy + 1 <= usize::MAX,
    ensures
        turned(translated(spawned(5), dx, dy)) == translated(spawned(5), dx, dy),
        turn_cycle(translated(spawned(5), dx, dy), 1),
{
    let p = translated(spawned(5), dx, dy);
    let x = 4 + dx;
    let y = 1 + dy;
    lemma_palette_distinct();
    assert(p =~= tiles4(unpack_argb(YELLOW), (x, y - 1), (x + 1, y - 1), (x, y), (x + 1, y)));
    assert(turned(p) == p);
    reveal_with_fuel(turned_times, 5);
    assert(turned_times(p, 4) == p);
    assert forall|n: nat|
        n < 4 implies turn_in_range(#[trigger] turned_times(p, n)) && same_shape_parts(
        p,
        turned_times(p, n + 1),
    ) by {
        assert(turned_times(p, n) == p);
        assert(turned_times(p, n + 1) == p);
    }
}

/// A new piece, moved anywhere that leaves its tile 2 at least two cells
/// from the top and left edges (and one short of the largest position),
/// turns in a cycle: each turn stays in range (so `rotate_piece` can make it)
/// and keeps the four tiles, their colours and tile 2; four turns give the
/// piece back, the bar and the two zigzags come back after two, and the
/// square does not move.
pub proof fn lemma_turns_give_back(k: int, dx: int, dy: int)
    requires
        0 <= k < 7,
        spawned(k)[2].pos.0 + dx >= 2,
        spawned(k)[2].pos.1 + dy >= 2,
        spawned(k)[2].pos.0 + dx + 1 <= usize::MAX,
        spawned(k)[2].pos.1 + dy + 1 <= usize::MAX,
    ensures
        ({
            let p = translated(spawned(k), dx, dy);
            &&& forall|n: nat|
                n < 4 ==> turn_in_range(#[trigger] turned_times(p, n)) && same_shape_parts(
                    p,
                    turned_times(p, n + 1),
                )
            &&& turned_times(p, 4) == p
            &&& (k == 0 || k == 3 || k == 4) ==> turned_times(p, 2) == p
            &&& k == 5 ==> turned(p) == p
        }),
{
    if k == 0 {
        assert(spawned(0)[2].pos == (5usize, 0usize));
        lemma_spawned_cycle_bar(dx, dy);
    } else if k == 1 {
        assert(spawned(1)[2].pos == (5usize, 1usize));
        lemma_spawned_cycle_hook_left(dx, dy);
    } else if k == 2 {
        assert(spawned(2)[2].pos == (5usize, 1usize));
        lemma_spawned_cycle_hook_right(dx, dy);
    } else if k == 3 {
        assert(spawned(3)[2].pos == (5usize, 1usize));
        lemma_spawned_cycle_zigzag_red(dx, dy);
    } else if k == 4 {
        assert(spawned(4)[2].pos == (5usize, 1usize));
        lemma_spawned_cycle_zigzag_green(dx, dy);
    } else if k == 5 {
        assert(spawned(5)[2].pos == (4usize, 1usize));
        lemma_spawned_square_stays(dx, dy);
    } else {
        assert(spawned(6)[2].pos == (5usize, 1usize));
        lemma_spawned_cycle_tee(dx, dy);
    }
}

/// A new piece has four tiles, all on the board in its top two rows, and it
/// fits on an empty board.
pub proof fn lemma_spawned_piece_on_board(k: int, board: Seq<Tile>)
    requires
        0 <= k < 7,
        board.len() == TILES_X * TILES_Y,
        forall|i: int| 0 <= i < board.len() ==> #[trigger] board[i].color == unpack_argb(TILE_BG_COLOR),
    ensures
        spawn_positions(k).len() == 4,
        forall|i: int| 0 <= i < 4 ==> #[trigger] spawn_positions(k)[i].1 <= 1,
        piece_fits(
            Seq::new(4, |i: int| Tile { pos: spawn_positions(k)[i], color: unpack_argb(spawn_color(k)) }),
            board,
        ),
{
    let t = Seq::new(4, |i: int| Tile { pos: spawn_positions(k)[i], color: unpack_argb(spawn_color(k)) });
    assert forall|i: int| 0 <= i < 4 implies on_board(#[trigger] t[i]) && cell_of(t[i]) < board.len() by {}
    assert forall|i: int| 0 <= i < 4 implies #[trigger] spawn_positions(k)[i].1 <= 1 by {}
}

} // verus!
