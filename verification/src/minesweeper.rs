//! The field of the mine-sweeping game: flagging a cell, the neighbours of a
//! cell, and uncovering a cell, which opens the whole area of cells without
//! neighbouring mines around it.
use vstd::prelude::*;

verus! {

/// A cell of the field.
#[derive(Debug, Copy, Clone, PartialEq, Eq, Structural)]
pub enum Tile {
    /// Covered, without a mine.
    Clear,
    /// Covered, with a mine.
    Mine,
    /// Flagged by the player; the flag tells whether there is a mine under it.
    Flagged(bool),
    /// Uncovered, showing the number of mines around it.
    Neighbors(usize),
    /// The mine that the player uncovered.
    MineExploded,
    /// A mine shown once the game is lost.
    MineShown,
}

/// Where the game is.
#[derive(Debug, Copy, Clone, PartialEq, Eq, Structural)]
pub enum GameState {
    /// In the menu, with the level chosen so far.
    Menu(usize),
    Playing,
    GameOver,
    Win,
}

/// The field: `tiles_x` by `tiles_y` cells, row by row, the number of mines
/// not yet flagged, and where the game is.
pub struct Minefield {
    pub tiles_x: usize,
    pub tiles_y: usize,
    pub mines_left: usize,
    pub state: GameState,
    pub tiles: Vec<Tile>,
}

impl Minefield {
    /// The cells fill the field, and a cell's index fits a signed number.
    pub open spec fn wf(self) -> bool {
        &&& self.tiles@.len() == self.tiles_x * self.tiles_y
        &&& self.tiles@.len() < isize::MAX
    }
}

/// The width, height and number of mines of a level: beginner (0),
/// intermediate (1) or expert (2).
pub open spec fn level_size(level: int) -> (usize, usize, usize) {
    if level == 0 {
        (9usize, 9usize, 10usize)
    } else if level == 1 {
        (16usize, 16usize, 40usize)
    } else {
        (30usize, 16usize, 99usize)
    }
}

/// The width, height and number of mines of a level (see `level_size`).
pub fn level_config(level: usize) -> (c: (usize, usize, usize))
    requires
        level <= 2,
    ensures
        c == level_size(level as int),
{
    match level {
        0 => (9, 9, 10),
        1 => (16, 16, 40),
        _ => (30, 16, 99),
    }
}

/// The number of cells of `f` that hide a mine and carry no flag.
pub open spec fn mines_in(f: Seq<Tile>) -> nat
    decreases f.len(),
{
    if f.len() == 0 {
        0
    } else {
        mines_in(f.drop_last()) + if f.last() == Tile::Mine {
            1nat
        } else {
            0nat
        }
    }
}

proof fn lemma_mines_in_update(f: Seq<Tile>, i: int)
    requires
        0 <= i < f.len(),
        f[i] == Tile::Clear,
    ensures
        mines_in(f.update(i, Tile::Mine)) == mines_in(f) + 1,
    decreases f.len(),
{
    let g = f.update(i, Tile::Mine);
    if i < f.len() - 1 {
        assert(g.drop_last() =~= f.drop_last().update(i, Tile::Mine));
        lemma_mines_in_update(f.drop_last(), i);
    } else {
        assert(g.drop_last() =~= f.drop_last());
    }
}

proof fn lemma_mines_in_clear(f: Seq<Tile>)
    requires
        forall|i: int| 0 <= i < f.len() ==> #[trigger] f[i] == Tile::Clear,
    ensures
        mines_in(f) == 0,
    decreases f.len(),
{
    if f.len() > 0 {
        lemma_mines_in_clear(f.drop_last());
    }
}

impl Minefield {
    /// A field of the given level, every cell clear, no mine placed yet, all
    /// its mines left to find, and the game in the menu.
    pub fn new(level: usize) -> (m: Self)
        requires
            level <= 2,
        ensures
            m.wf(),
            (m.tiles_x, m.tiles_y, m.mines_left) == level_size(level as int),
            m.state == GameState::Menu(0),
            forall|i: int| 0 <= i < m.tiles@.len() ==> #[trigger] m.tiles@[i] == Tile::Clear,
            mines_in(m.tiles@) == 0,
    {
        let (tiles_x, tiles_y, mine_count) = level_config(level);
        assert(tiles_x * tiles_y <= 480) by (nonlinear_arith)
            requires
                tiles_x <= 30,
                tiles_y <= 16,
        ;
        let n = tiles_x * tiles_y;
        let mut tiles: Vec<Tile> = Vec::new();
        for i in 0..n
            invariant
                tiles.len() == i,
                forall|j: int| 0 <= j < i ==> #[trigger] tiles@[j] == Tile::Clear,
        {
            tiles.push(Tile::Clear);
        }
        proof {
            lemma_mines_in_clear(tiles@);
        }
        Minefield { tiles_x, tiles_y, mines_left: mine_count, state: GameState::Menu(0), tiles }
    }

    /// Puts a mine on the cell at row `row_random % tiles_y` and column
    /// `col_random % tiles_x`, where the two are random numbers, if that cell
    /// is clear; says whether it did. A new field is mined by calling this
    /// until it has placed as many mines as the level has.
    pub fn place_mine(&mut self, row_random: usize, col_random: usize) -> (placed: bool)
        requires
            old(self).wf(),
            old(self).tiles_x > 0,
            old(self).tiles_y > 0,
        ensures
            ({
                let idx = (row_random % old(self).tiles_y) * old(self).tiles_x + col_random % old(
                    self,
                ).tiles_x;
                &&& placed == (old(self).tiles@[idx] == Tile::Clear)
                &&& final(self).tiles@ == if placed {
                    old(self).tiles@.update(idx, Tile::Mine)
                } else {
                    old(self).tiles@
                }
            }),
            mines_in(final(self).tiles@) == mines_in(old(self).tiles@) + if placed {
                1int
            } else {
                0int
            },
            final(self).wf(),
            final(self).tiles_x == old(self).tiles_x,
            final(self).tiles_y == old(self).tiles_y,
            final(self).mines_left == old(self).mines_left,
            final(self).state == old(self).state,
    {
        let row = row_random % self.tiles_y;
        let col = col_random % self.tiles_x;
        proof {
            assert(row * self.tiles_x + col < self.tiles_x * self.tiles_y) by (nonlinear_arith)
                requires
                    row < self.tiles_y,
                    col < self.tiles_x,
            ;
        }
        let idx = row * self.tiles_x + col;
        if self.tiles[idx] == Tile::Clear {
            proof {
                lemma_mines_in_update(self.tiles@, idx as int);
            }
            self.tiles.set(idx, Tile::Mine);
            true
        } else {
            false
        }
    }
}

/// The keys the game reacts to, each pressed in this frame or not: quit,
/// restart the level, back to the menu, pick the level shown in the menu,
/// and move up or down the menu.
#[derive(Debug, Copy, Clone, PartialEq, Eq, Structural)]
pub struct FieldKeys {
    pub quit: bool,
    pub restart: bool,
    pub menu: bool,
    pub select: bool,
    pub up: bool,
    pub down: bool,
}

/// What the game does next.
#[derive(Debug, Copy, Clone, PartialEq, Eq, Structural)]
pub enum FieldCommand {
    /// Stop.
    Quit,
    /// Set up a new field of the given level, and play at once (`true`) or
    /// go to the menu (`false`).
    NewField(usize, bool),
    /// Go on in the given state.
    Go(GameState),
}

/// What the game does on the keys pressed, in the order it looks at them:
/// quitting, restarting the level being played, going back to the menu; in
/// the menu, picking the level shown, else moving down (to at most the
/// expert level), else up (to at least the beginner level).
pub open spec fn field_step(state: GameState, level: usize, keys: FieldKeys) -> FieldCommand {
    if keys.quit {
        FieldCommand::Quit
    } else if keys.restart {
        FieldCommand::NewField(level, true)
    } else if keys.menu {
        FieldCommand::NewField(level, false)
    } else {
        match state {
            GameState::Menu(l) => if keys.select {
                FieldCommand::NewField(l, true)
            } else if keys.down {
                FieldCommand::Go(GameState::Menu(if l + 1 < 2 { (l + 1) as usize } else { 2 }))
            } else if keys.up {
                FieldCommand::Go(GameState::Menu(if l > 0 { (l - 1) as usize } else { 0 }))
            } else {
                FieldCommand::Go(state)
            },
            _ => FieldCommand::Go(state),
        }
    }
}

/// What the game does on the keys pressed (see `field_step`), in state
/// `state` with level `level` being played.
pub fn field_command(state: GameState, level: usize, keys: FieldKeys) -> (c: FieldCommand)
    ensures
        c == field_step(state, level, keys),
{
    if keys.quit {
        return FieldCommand::Quit;
    }
    if keys.restart {
        return FieldCommand::NewField(level, true);
    }
    if keys.menu {
        return FieldCommand::NewField(level, false);
    }
    let mut next = state;
    if let GameState::Menu(l) = state {
        if keys.select {
            return FieldCommand::NewField(l, true);
        }
        if keys.up {
            next = GameState::Menu(l.saturating_sub(1));
        }
        if keys.down {
            next = GameState::Menu(if l < 2 { l + 1 } else { 2 });
        }
    }
    FieldCommand::Go(next)
}

/// The keys never lead to a level beyond expert: from a menu and a level
/// in range, every new field asked for and every menu position is a level
/// `level_config` takes.
pub proof fn lemma_levels_stay_in_range(state: GameState, level: usize, keys: FieldKeys)
    requires
        level <= 2,
        state matches GameState::Menu(l) ==> l <= 2,
    ensures
        field_step(state, level, keys) matches FieldCommand::NewField(n, _) ==> n <= 2,
        field_step(state, level, keys) matches FieldCommand::Go(GameState::Menu(l)) ==> l <= 2,
{
}

/// A cell that counts as a mine for its neighbours: a mine, or a flag on one.
pub open spec fn mine_like(t: Tile) -> bool {
    t == Tile::Mine || t == Tile::Flagged(true)
}

/// The cells of a field of `tx` by `ty` around row `r`, column `q` (the cell
/// itself included), from candidate `k` of the nine on: rows top to bottom,
/// in each row columns left to right, those on the field only.
pub open spec fn neighbors_from(tx: int, ty: int, r: int, q: int, k: int) -> Seq<int>
    decreases 9 - k,
{
    if k < 0 || k >= 9 {
        Seq::empty()
    } else {
        let j = r - 1 + k / 3;
        let i = q - 1 + k % 3;
        let here = if 0 <= j < ty && 0 <= i < tx { seq![j * tx + i] } else { Seq::empty() };
        here + neighbors_from(tx, ty, r, q, k + 1)
    }
}

/// The cells around cell `c` (itself included), in index order.
pub open spec fn neighbor_cells(tx: int, ty: int, c: int) -> Seq<int> {
    neighbors_from(tx, ty, c / tx, c % tx, 0)
}

/// The number of mine-like cells among `cells` of the field `f`.
pub open spec fn mines_among(f: Seq<Tile>, cells: Seq<int>) -> nat
    decreases cells.len(),
{
    if cells.len() == 0 {
        0
    } else {
        mines_among(f, cells.drop_last()) + if mine_like(f[cells.last()]) { 1nat } else { 0nat }
    }
}

/// The number of mine-like cells around cell `c`.
pub open spec fn mine_count(f: Seq<Tile>, tx: int, ty: int, c: int) -> nat {
    mines_among(f, neighbor_cells(tx, ty, c))
}

/// The cells of a neighbour list.
pub open spec fn cells_of(v: Seq<(usize, Tile)>) -> Seq<int> {
    v.map_values(|p: (usize, Tile)| p.0 as int)
}

proof fn lemma_cell_in_field(tx: int, ty: int, j: int, i: int)
    requires
        0 <= j < ty,
        0 <= i < tx,
    ensures
        0 <= j * tx + i < tx * ty,
{
    assert(0 <= j * tx + i < tx * ty) by (nonlinear_arith)
        requires
            0 <= j < ty,
            0 <= i < tx,
    ;
}

/// Every cell around a cell lies on the field.
proof fn lemma_neighbors_on_field(tx: int, ty: int, r: int, q: int, k: int)
    requires
        0 <= k,
    ensures
        forall|m: int| #[trigger] neighbors_from(tx, ty, r, q, k).contains(m) ==> 0 <= m < tx * ty,
    decreases 9 - k,
{
    if k < 9 {
        lemma_neighbors_on_field(tx, ty, r, q, k + 1);
        let j = r - 1 + k / 3;
        let i = q - 1 + k % 3;
        if 0 <= j < ty && 0 <= i < tx {
            lemma_cell_in_field(tx, ty, j, i);
        }
        let here = if 0 <= j < ty && 0 <= i < tx { seq![j * tx + i] } else { Seq::<int>::empty() };
        let rest = neighbors_from(tx, ty, r, q, k + 1);
        assert(neighbors_from(tx, ty, r, q, k) == here + rest);
        assert forall|m: int| #[trigger] neighbors_from(tx, ty, r, q, k).contains(m) implies 0 <= m < tx
            * ty by {
            let w = choose|w: int| 0 <= w < (here + rest).len() && (here + rest)[w] == m;
            if w >= here.len() {
                assert(rest[w - here.len()] == m);
                assert(rest.contains(m));
            }
        }
    }
}

impl Minefield {
    /// The cells around row `row`, column `col` (that cell included), in
    /// index order, each with what it holds.
    pub fn get_neighbors(&self, row: isize, col: isize) -> (r: Vec<(usize, Tile)>)
        requires
            self.wf(),
            isize::MIN < row < isize::MAX,
            isize::MIN < col < isize::MAX,
        ensures
            cells_of(r@) == neighbors_from(self.tiles_x as int, self.tiles_y as int, row as int, col as int, 0),
            forall|k: int| 0 <= k < r@.len() ==> (#[trigger] r@[k]).1 == self.tiles@[r@[k].0 as int],
    {
        let ghost tx = self.tiles_x as int;
        let ghost ty = self.tiles_y as int;
        let mut neighbors: Vec<(usize, Tile)> = Vec::new();
        proof {
            if self.tiles_x > 0 {
                assert(self.tiles_y <= self.tiles@.len()) by (nonlinear_arith)
                    requires
                        self.tiles@.len() == self.tiles_x * self.tiles_y,
                        self.tiles_x > 0,
                ;
            }
            if self.tiles_y > 0 {
                assert(self.tiles_x <= self.tiles@.len()) by (nonlinear_arith)
                    requires
                        self.tiles@.len() == self.tiles_x * self.tiles_y,
                        self.tiles_y > 0,
                ;
            }
        }
        let mut dj: isize = 0;
        while dj < 3
            invariant
                self.wf(),
                tx == self.tiles_x,
                ty == self.tiles_y,
                tx > 0 ==> ty < isize::MAX,
                ty > 0 ==> tx < isize::MAX,
                isize::MIN < row < isize::MAX,
                isize::MIN < col < isize::MAX,
                0 <= dj <= 3,
                neighbors_from(tx, ty, row as int, col as int, 0) == cells_of(neighbors@) + neighbors_from(
                    tx,
                    ty,
                    row as int,
                    col as int,
                    3 * dj,
                ),
                forall|k: int| 0 <= k < neighbors@.len() ==> (#[trigger] neighbors@[k]).1 == self.tiles@[neighbors@[k].0 as int],
            decreases 3 - dj,
        {
            let j = row - 1 + dj;
            let mut di: isize = 0;
            while di < 3
                invariant
                    self.wf(),
                    tx == self.tiles_x,
                    ty == self.tiles_y,
                    tx > 0 ==> ty < isize::MAX,
                    ty > 0 ==> tx < isize::MAX,
                    isize::MIN < row < isize::MAX,
                    isize::MIN < col < isize::MAX,
                    0 <= dj < 3,
                    j == row - 1 + dj,
                    0 <= di <= 3,
                    neighbors_from(tx, ty, row as int, col as int, 0) == cells_of(neighbors@) + neighbors_from(
                        tx,
                        ty,
                        row as int,
                        col as int,
                        3 * dj + di,
                    ),
                    forall|k: int| 0 <= k < neighbors@.len() ==> (#[trigger] neighbors@[k]).1 == self.tiles@[neighbors@[k].0 as int],
                decreases 3 - di,
            {
                let i = col - 1 + di;
                let ghost k = 3 * dj + di;
                assert(row as int - 1 + k / 3 == j && col as int - 1 + k % 3 == i);
                let ghost before = neighbors@;
                if j >= 0 && j < self.tiles_y as isize && i >= 0 && i < self.tiles_x as isize {
                    proof {
                        lemma_cell_in_field(tx, ty, j as int, i as int);
                    }
                    let idx = (j as usize) * self.tiles_x + (i as usize);
                    neighbors.push((idx, self.tiles[idx]));
                    assert(cells_of(neighbors@) =~= cells_of(before).push(idx as int));
                } else {
                    assert(!(0 <= j < ty && 0 <= i < tx));
                }
                assert(neighbors_from(tx, ty, row as int, col as int, k) == (if 0 <= j < ty && 0 <= i < tx {
                    seq![j * tx + i]
                } else {
                    Seq::empty()
                }) + neighbors_from(tx, ty, row as int, col as int, k + 1));
                di = di + 1;
            }
            dj = dj + 1;
        }
        assert(neighbors_from(tx, ty, row as int, col as int, 9) == Seq::<int>::empty());
        assert(cells_of(neighbors@) + Seq::<int>::empty() =~= cells_of(neighbors@));
        neighbors
    }
}

/// What a flag toggle makes of a cell: a covered cell gets a flag (one mine
/// fewer left to find), a flag is taken off (one more); other cells stay.
pub open spec fn toggled(t: Tile) -> Tile {
    match t {
        Tile::Clear => Tile::Flagged(false),
        Tile::Mine => Tile::Flagged(true),
        Tile::Flagged(false) => Tile::Clear,
        Tile::Flagged(true) => Tile::Mine,
        other => other,
    }
}

impl Minefield {
    /// Puts a flag on cell `idx`, or takes it off, and counts the mines left.
    pub fn toggle_flag(&mut self, idx: usize)
        requires
            idx < old(self).tiles@.len(),
            (old(self).tiles@[idx as int] == Tile::Clear || old(self).tiles@[idx as int] == Tile::Mine)
                ==> old(self).mines_left >= 1,
            old(self).tiles@[idx as int] is Flagged ==> old(self).mines_left < usize::MAX,
        ensures
            final(self).tiles@ == old(self).tiles@.update(idx as int, toggled(old(self).tiles@[idx as int])),
            final(self).mines_left == (match old(self).tiles@[idx as int] {
                Tile::Clear | Tile::Mine => old(self).mines_left - 1,
                Tile::Flagged(_) => old(self).mines_left + 1,
                _ => old(self).mines_left as int,
            }),
            final(self).tiles_x == old(self).tiles_x,
            final(self).tiles_y == old(self).tiles_y,
            final(self).state == old(self).state,
    {
        let t = match self.tiles[idx] {
            Tile::Clear => {
                self.mines_left -= 1;
                Tile::Flagged(false)
            },
            Tile::Mine => {
                self.mines_left -= 1;
                Tile::Flagged(true)
            },
            Tile::Flagged(false) => {
                self.mines_left += 1;
                Tile::Clear
            },
            Tile::Flagged(true) => {
                self.mines_left += 1;
                Tile::Mine
            },
            t => t,
        };
        self.tiles.set(idx, t);
    }
}

/// `p` is a way along which uncovering opens the field `f`: each cell of it
/// is a covered cell without a mine, each next cell lies around the one
/// before, and no cell but the last has a mine-like cell around it.
pub open spec fn is_opening_path(f: Seq<Tile>, tx: int, ty: int, p: Seq<int>) -> bool {
    &&& p.len() >= 1
    &&& forall|k: int| 0 <= k < p.len() ==> 0 <= #[trigger] p[k] < f.len() && f[p[k]] == Tile::Clear
    &&& forall|k: int|
        0 <= k < p.len() - 1 ==> neighbor_cells(tx, ty, #[trigger] p[k]).contains(p[k + 1]) && mine_count(
            f,
            tx,
            ty,
            p[k],
        ) == 0
}

/// Uncovering cell `s` of `f` opens cell `c`.
pub open spec fn opens(f: Seq<Tile>, tx: int, ty: int, s: int, c: int) -> bool {
    exists|p: Seq<int>| #[trigger] is_opening_path(f, tx, ty, p) && p[0] == s && p.last() == c
}

/// The field with the cells that `u` holds uncovered, each showing its count of mines around it.
pub open spec fn uncovered(f: Seq<Tile>, tx: int, ty: int, u: spec_fn(int) -> bool) -> Seq<Tile> {
    Seq::new(f.len(), |c: int| if u(c) { Tile::Neighbors(mine_count(f, tx, ty, c) as usize) } else { f[c] })
}

/// The field after cell `s` is uncovered: every cell that it opens shows its
/// count of mines around it.
pub open spec fn opened(f: Seq<Tile>, tx: int, ty: int, s: int) -> Seq<Tile> {
    uncovered(f, tx, ty, |c: int| opens(f, tx, ty, s, c))
}

/// The field after the mine at `s` went off: it shows as exploded, and
/// every other mine as shown.
pub open spec fn exploded(f: Seq<Tile>, s: int) -> Seq<Tile> {
    Seq::new(
        f.len(),
        |c: int| if c == s { Tile::MineExploded } else if f[c] == Tile::Mine { Tile::MineShown } else { f[c] },
    )
}

/// No covered cell without a mine is left.
pub open spec fn all_found(f: Seq<Tile>) -> bool {
    forall|c: int| 0 <= c < f.len() ==> f[c] != Tile::Clear
}

/// The number of covered cells without a mine.
pub open spec fn clear_count(f: Seq<Tile>) -> nat
    decreases f.len(),
{
    if f.len() == 0 {
        0
    } else {
        clear_count(f.drop_last()) + if f.last() == Tile::Clear { 1nat } else { 0nat }
    }
}

/// `u` holds covered cells without a mine only, and with each cell that has
/// no mine-like cell around it, every such covered cell around it.
pub open spec fn closed(f: Seq<Tile>, tx: int, ty: int, u: spec_fn(int) -> bool) -> bool {
    &&& forall|q: int| #[trigger] u(q) ==> 0 <= q < f.len() && f[q] == Tile::Clear
    &&& forall|q: int, m: int|
        #[trigger] u(q) && mine_count(f, tx, ty, q) == 0 && #[trigger] neighbor_cells(tx, ty, q).contains(m) && 0 <= m
            < f.len() && f[m] == Tile::Clear ==> u(m)
}

proof fn lemma_mines_among_same(f: Seq<Tile>, g: Seq<Tile>, cells: Seq<int>)
    requires
        forall|k: int| 0 <= k < cells.len() ==> mine_like(f[#[trigger] cells[k]]) == mine_like(g[cells[k]]),
    ensures
        mines_among(f, cells) == mines_among(g, cells),
    decreases cells.len(),
{
    if cells.len() > 0 {
        lemma_mines_among_same(f, g, cells.drop_last());
        assert(mine_like(f[cells[cells.len() - 1]]) == mine_like(g[cells[cells.len() - 1]]));
    }
}

proof fn lemma_mines_among_zero(f: Seq<Tile>, cells: Seq<int>)
    requires
        mines_among(f, cells) == 0,
    ensures
        forall|k: int| 0 <= k < cells.len() ==> !mine_like(f[#[trigger] cells[k]]),
    decreases cells.len(),
{
    if cells.len() > 0 {
        lemma_mines_among_zero(f, cells.drop_last());
        assert forall|k: int| 0 <= k < cells.len() implies !mine_like(f[#[trigger] cells[k]]) by {
            if k < cells.len() - 1 {
                assert(cells.drop_last()[k] == cells[k]);
            }
        }
    }
}

/// Uncovering the cells of a closed set changes no cell's count of mines around it.
proof fn lemma_uncovered_counts(f: Seq<Tile>, tx: int, ty: int, u: spec_fn(int) -> bool, c: int)
    requires
        f.len() == tx * ty,
        closed(f, tx, ty, u),
    ensures
        mine_count(uncovered(f, tx, ty, u), tx, ty, c) == mine_count(f, tx, ty, c),
{
    let g = uncovered(f, tx, ty, u);
    let cells = neighbor_cells(tx, ty, c);
    lemma_neighbors_on_field(tx, ty, c / tx, c % tx, 0);
    assert forall|k: int| 0 <= k < cells.len() implies mine_like(f[#[trigger] cells[k]]) == mine_like(
        g[cells[k]],
    ) by {
        assert(cells.contains(cells[k]));
    }
    lemma_mines_among_same(f, g, cells);
}

/// The cells that uncovering a cell opens form a closed set.
proof fn lemma_opens_closed(f: Seq<Tile>, tx: int, ty: int, s: int)
    ensures
        closed(f, tx, ty, |c: int| opens(f, tx, ty, s, c)),
{
    let u = |c: int| opens(f, tx, ty, s, c);
    assert forall|q: int| #[trigger] u(q) implies 0 <= q < f.len() && f[q] == Tile::Clear by {
        let p = choose|p: Seq<int>| #[trigger] is_opening_path(f, tx, ty, p) && p[0] == s && p.last() == q;
        assert(p[p.len() - 1] == q);
    }
    assert forall|q: int, m: int|
        #[trigger] u(q) && mine_count(f, tx, ty, q) == 0 && #[trigger] neighbor_cells(tx, ty, q).contains(m) && 0
            <= m < f.len() && f[m] == Tile::Clear implies u(m) by {
        let p = choose|p: Seq<int>| #[trigger] is_opening_path(f, tx, ty, p) && p[0] == s && p.last() == q;
        let p2 = p.push(m);
        assert forall|k: int| 0 <= k < p2.len() implies 0 <= #[trigger] p2[k] < f.len() && f[p2[k]]
            == Tile::Clear by {
            if k < p.len() {
                assert(p2[k] == p[k]);
            }
        }
        assert forall|k: int| 0 <= k < p2.len() - 1 implies neighbor_cells(tx, ty, #[trigger] p2[k]).contains(
            p2[k + 1],
        ) && mine_count(f, tx, ty, p2[k]) == 0 by {
            assert(p2[k] == p[k]);
            if k < p.len() - 1 {
                assert(p2[k + 1] == p[k + 1]);
            } else {
                assert(p[k] == q);
            }
        }
        assert(is_opening_path(f, tx, ty, p2) && p2[0] == s && p2.last() == m);
    }
}

/// Along an opening path, once a cell is in a closed set, so are all the later ones.
proof fn lemma_closed_forward(f: Seq<Tile>, tx: int, ty: int, u: spec_fn(int) -> bool, p: Seq<int>, k: int, j: int)
    requires
        closed(f, tx, ty, u),
        is_opening_path(f, tx, ty, p),
        0 <= k <= j < p.len(),
        u(p[k]),
    ensures
        u(p[j]),
    decreases j - k,
{
    if k < j {
        assert(neighbor_cells(tx, ty, p[k]).contains(p[k + 1]) && mine_count(f, tx, ty, p[k]) == 0);
        assert(0 <= p[k + 1] < f.len() && f[p[k + 1]] == Tile::Clear);
        lemma_closed_forward(f, tx, ty, u, p, k + 1, j);
    }
}

/// Uncovering a cell of a field in which a closed set is already uncovered
/// uncovers, on the first field, that set and what the cell opens there.
proof fn lemma_open_after(f: Seq<Tile>, tx: int, ty: int, u: spec_fn(int) -> bool, n: int)
    requires
        f.len() == tx * ty,
        closed(f, tx, ty, u),
    ensures
        opened(uncovered(f, tx, ty, u), tx, ty, n) == uncovered(f, tx, ty, |c: int| u(c) || opens(f, tx, ty, n, c)),
        closed(f, tx, ty, |c: int| u(c) || opens(f, tx, ty, n, c)),
{
    let g = uncovered(f, tx, ty, u);
    let w = |c: int| u(c) || opens(f, tx, ty, n, c);
    lemma_opens_closed(f, tx, ty, n);
    assert forall|c: int| #[trigger] mine_count(g, tx, ty, c) == mine_count(f, tx, ty, c) by {
        lemma_uncovered_counts(f, tx, ty, u, c);
    }
    // A path on `g` is a path on `f`, and it ends outside `u`.
    assert forall|c: int| opens(g, tx, ty, n, c) implies opens(f, tx, ty, n, c) && !u(c) by {
        let p = choose|p: Seq<int>| #[trigger] is_opening_path(g, tx, ty, p) && p[0] == n && p.last() == c;
        assert forall|k: int| 0 <= k < p.len() implies 0 <= #[trigger] p[k] < f.len() && f[p[k]]
            == Tile::Clear by {
            assert(g[p[k]] == Tile::Clear);
        }
        assert forall|k: int| 0 <= k < p.len() - 1 implies neighbor_cells(tx, ty, #[trigger] p[k]).contains(
            p[k + 1],
        ) && mine_count(f, tx, ty, p[k]) == 0 by {
            assert(mine_count(g, tx, ty, p[k]) == 0);
        }
        assert(is_opening_path(f, tx, ty, p));
        assert(g[p[p.len() - 1]] == Tile::Clear);
    }
    // A path on `f` that ends outside `u` stays outside `u`, so it is a path on `g`.
    assert forall|c: int| opens(f, tx, ty, n, c) && !u(c) implies opens(g, tx, ty, n, c) by {
        let p = choose|p: Seq<int>| #[trigger] is_opening_path(f, tx, ty, p) && p[0] == n && p.last() == c;
        assert forall|k: int| 0 <= k < p.len() implies !u(#[trigger] p[k]) by {
            if u(p[k]) {
                lemma_closed_forward(f, tx, ty, u, p, k, p.len() - 1);
            }
        }
        assert forall|k: int| 0 <= k < p.len() implies 0 <= #[trigger] p[k] < g.len() && g[p[k]]
            == Tile::Clear by {
            assert(!u(p[k]));
        }
        assert forall|k: int| 0 <= k < p.len() - 1 implies neighbor_cells(tx, ty, #[trigger] p[k]).contains(
            p[k + 1],
        ) && mine_count(g, tx, ty, p[k]) == 0 by {
            assert(mine_count(f, tx, ty, p[k]) == 0);
        }
        assert(is_opening_path(g, tx, ty, p));
    }
    assert(opened(g, tx, ty, n) =~= uncovered(f, tx, ty, w));
    assert forall|q: int| #[trigger] w(q) implies 0 <= q < f.len() && f[q] == Tile::Clear by {
        if !u(q) {
            assert((|c: int| opens(f, tx, ty, n, c))(q));
        }
    }
    assert forall|q: int, m: int|
        #[trigger] w(q) && mine_count(f, tx, ty, q) == 0 && #[trigger] neighbor_cells(tx, ty, q).contains(m) && 0
            <= m < f.len() && f[m] == Tile::Clear implies w(m) by {
        if u(q) {
            assert(u(m));
        } else {
            assert((|c: int| opens(f, tx, ty, n, c))(q));
            assert((|c: int| opens(f, tx, ty, n, c))(m));
        }
    }
}

/// Fields that agree on which cells are mine-like agree on every count.
proof fn lemma_counts_same(f: Seq<Tile>, g: Seq<Tile>, tx: int, ty: int, c: int)
    requires
        f.len() == tx * ty,
        g.len() == f.len(),
        forall|m: int| 0 <= m < f.len() ==> mine_like(#[trigger] f[m]) == mine_like(g[m]),
    ensures
        mine_count(f, tx, ty, c) == mine_count(g, tx, ty, c),
{
    let cells = neighbor_cells(tx, ty, c);
    lemma_neighbors_on_field(tx, ty, c / tx, c % tx, 0);
    assert forall|k: int| 0 <= k < cells.len() implies mine_like(f[#[trigger] cells[k]]) == mine_like(
        g[cells[k]],
    ) by {
        assert(cells.contains(cells[k]));
    }
    lemma_mines_among_same(f, g, cells);
}

/// The last place at which `x` stands in `p`.
proof fn lemma_last_index(p: Seq<int>, x: int) -> (k: int)
    requires
        p.contains(x),
    ensures
        0 <= k < p.len(),
        p[k] == x,
        forall|j: int| k < j < p.len() ==> p[j] != x,
    decreases p.len(),
{
    if p.last() == x {
        p.len() - 1
    } else {
        let w = choose|w: int| 0 <= w < p.len() && p[w] == x;
        assert(p.drop_last()[w] == x);
        let k = lemma_last_index(p.drop_last(), x);
        assert forall|j: int| k < j < p.len() implies p[j] != x by {
            if j < p.len() - 1 {
                assert(p.drop_last()[j] == p[j]);
            }
        }
        k
    }
}

/// Uncovering a cell with no mine around it opens that cell and what each
/// cell around it opens once that cell is uncovered.
#[verifier::spinoff_prover]
proof fn lemma_open_from_start(t: Seq<Tile>, tx: int, ty: int, idx: int, c: int)
    requires
        t.len() == tx * ty,
        0 <= idx < t.len(),
        t[idx] == Tile::Clear,
        mine_count(t, tx, ty, idx) == 0,
        c != idx,
    ensures
        opens(t, tx, ty, idx, idx),
        opens(t, tx, ty, idx, c) <==> exists|m: int|
            0 <= m < neighbor_cells(tx, ty, idx).len() && #[trigger] opens(
                t.update(idx, Tile::Neighbors(0)),
                tx,
                ty,
                neighbor_cells(tx, ty, idx)[m],
                c,
            ),
{
    let t1 = t.update(idx, Tile::Neighbors(0));
    let nbrs = neighbor_cells(tx, ty, idx);
    assert forall|q: int| #[trigger] mine_count(t1, tx, ty, q) == mine_count(t, tx, ty, q) by {
        lemma_counts_same(t, t1, tx, ty, q);
    }
    let single = seq![idx];
    assert(is_opening_path(t, tx, ty, single) && single[0] == idx && single.last() == idx);
    if opens(t, tx, ty, idx, c) {
        let p = choose|p: Seq<int>| #[trigger] is_opening_path(t, tx, ty, p) && p[0] == idx && p.last() == c;
        assert(p[0] == idx);
        assert(p.contains(idx));
        let k = lemma_last_index(p, idx);
        assert(k < p.len() - 1);
        let q = p.subrange(k + 1, p.len() as int);
        assert forall|j: int| 0 <= j < q.len() implies 0 <= #[trigger] q[j] < t1.len() && t1[q[j]]
            == Tile::Clear by {
            assert(q[j] == p[k + 1 + j]);
        }
        assert forall|j: int| 0 <= j < q.len() - 1 implies neighbor_cells(tx, ty, #[trigger] q[j]).contains(
            q[j + 1],
        ) && mine_count(t1, tx, ty, q[j]) == 0 by {
            assert(q[j] == p[k + 1 + j] && q[j + 1] == p[k + 2 + j]);
        }
        assert(is_opening_path(t1, tx, ty, q));
        assert(nbrs.contains(q[0])) by {
            assert(q[0] == p[k + 1]);
            assert(neighbor_cells(tx, ty, p[k]).contains(p[k + 1]));
        }
        let m = choose|m: int| 0 <= m < nbrs.len() && nbrs[m] == q[0];
        assert(q.last() == c);
        assert(opens(t1, tx, ty, nbrs[m], c));
    }
    if exists|m: int| 0 <= m < nbrs.len() && #[trigger] opens(t1, tx, ty, nbrs[m], c) {
        let m = choose|m: int| 0 <= m < nbrs.len() && #[trigger] opens(t1, tx, ty, nbrs[m], c);
        let q = choose|q: Seq<int>| #[trigger] is_opening_path(t1, tx, ty, q) && q[0] == nbrs[m] && q.last() == c;
        let p = single + q;
        assert forall|j: int| 0 <= j < p.len() implies 0 <= #[trigger] p[j] < t.len() && t[p[j]]
            == Tile::Clear by {
            if j > 0 {
                assert(p[j] == q[j - 1]);
                assert(t1[q[j - 1]] == Tile::Clear);
            }
        }
        assert forall|j: int| 0 <= j < p.len() - 1 implies neighbor_cells(tx, ty, #[trigger] p[j]).contains(
            p[j + 1],
        ) && mine_count(t, tx, ty, p[j]) == 0 by {
            if j == 0 {
                assert(p[1] == q[0]);
                assert(nbrs.contains(nbrs[m]));
            } else {
                assert(p[j] == q[j - 1] && p[j + 1] == q[j]);
                assert(mine_count(t1, tx, ty, q[j - 1]) == 0);
            }
        }
        assert(is_opening_path(t, tx, ty, p));
        assert(p.last() == c);
    }
}

proof fn lemma_clear_count_update(f: Seq<Tile>, i: int, t: Tile)
    requires
        0 <= i < f.len(),
        f[i] == Tile::Clear,
        t != Tile::Clear,
    ensures
        clear_count(f.update(i, t)) + 1 == clear_count(f),
    decreases f.len(),
{
    let g = f.update(i, t);
    if i == f.len() - 1 {
        assert(g.drop_last() =~= f.drop_last());
    } else {
        lemma_clear_count_update(f.drop_last(), i, t);
        assert(g.drop_last() =~= f.drop_last().update(i, t));
    }
}

proof fn lemma_clear_count_le(f: Seq<Tile>, g: Seq<Tile>)
    requires
        g.len() == f.len(),
        forall|c: int| 0 <= c < f.len() && #[trigger] g[c] == Tile::Clear ==> f[c] == Tile::Clear,
    ensures
        clear_count(g) <= clear_count(f),
    decreases f.len(),
{
    if f.len() > 0 {
        assert forall|c: int| 0 <= c < f.drop_last().len() && #[trigger] g.drop_last()[c] == Tile::Clear implies f.drop_last()[c]
            == Tile::Clear by {
            assert(g.drop_last()[c] == g[c]);
        }
        lemma_clear_count_le(f.drop_last(), g.drop_last());
        assert(g.last() == g[g.len() - 1]);
    }
}

/// Uncovering a cell that is not covered without a mine changes nothing.
proof fn lemma_opened_noop(f: Seq<Tile>, tx: int, ty: int, n: int)
    requires
        !(0 <= n < f.len() && f[n] == Tile::Clear),
    ensures
        opened(f, tx, ty, n) == f,
{
    assert forall|c: int| !opens(f, tx, ty, n, c) by {
        if opens(f, tx, ty, n, c) {
            let p = choose|p: Seq<int>| #[trigger] is_opening_path(f, tx, ty, p) && p[0] == n && p.last() == c;
            assert(0 <= p[0] < f.len() && f[p[0]] == Tile::Clear);
        }
    }
    assert(opened(f, tx, ty, n) =~= f);
}

/// Uncovering a cell with mines around it opens that cell only.
proof fn lemma_open_single(f: Seq<Tile>, tx: int, ty: int, n: int)
    requires
        0 <= n < f.len(),
        f[n] == Tile::Clear,
        mine_count(f, tx, ty, n) > 0,
    ensures
        opened(f, tx, ty, n) == f.update(n, Tile::Neighbors(mine_count(f, tx, ty, n) as usize)),
{
    let single = seq![n];
    assert(is_opening_path(f, tx, ty, single) && single[0] == n && single.last() == n);
    assert forall|c: int| c != n implies !opens(f, tx, ty, n, c) by {
        if opens(f, tx, ty, n, c) {
            let p = choose|p: Seq<int>| #[trigger] is_opening_path(f, tx, ty, p) && p[0] == n && p.last() == c;
            assert(p.len() >= 2);
            assert(mine_count(f, tx, ty, p[0]) == 0);
        }
    }
    assert(opened(f, tx, ty, n) =~= f.update(n, Tile::Neighbors(mine_count(f, tx, ty, n) as usize)));
}

/// The cells that the first `k` cells of `cells` open on `f`.
pub open spec fn opened_by_first(f: Seq<Tile>, tx: int, ty: int, cells: Seq<int>, k: int) -> spec_fn(int) -> bool {
    |c: int| exists|j: int| 0 <= j < k && #[trigger] opens(f, tx, ty, cells[j], c)
}

/// The number of mine-like cells in a neighbour list.
fn count_mines(neighbors: &Vec<(usize, Tile)>, f: Ghost<Seq<Tile>>) -> (count: usize)
    requires
        forall|k: int| 0 <= k < neighbors@.len() ==> (#[trigger] neighbors@[k]).1 == f@[neighbors@[k].0 as int],
    ensures
        count == mines_among(f@, cells_of(neighbors@)),
{
    let ghost cells = cells_of(neighbors@);
    let mut count: usize = 0;
    let mut k: usize = 0;
    while k < neighbors.len()
        invariant
            k <= neighbors@.len(),
            cells == cells_of(neighbors@),
            count <= k,
            count == mines_among(f@, cells.subrange(0, k as int)),
            forall|j: int| 0 <= j < neighbors@.len() ==> (#[trigger] neighbors@[j]).1 == f@[neighbors@[j].0 as int],
        decreases neighbors@.len() - k,
    {
        assert(cells.subrange(0, k + 1).drop_last() =~= cells.subrange(0, k as int));
        assert(cells.subrange(0, k + 1).last() == neighbors@[k as int].0 as int);
        if matches!(neighbors[k].1, Tile::Mine | Tile::Flagged(true)) {
            count = count + 1;
        }
        k = k + 1;
    }
    assert(cells.subrange(0, k as int) =~= cells);
    count
}

impl Minefield {
    /// Uncovers cell `idx`: a covered cell without a mine shows its count of
    /// mines around it and, where that count is 0, every cell around it is
    /// uncovered in turn (see `opened`); the game is won once no covered cell
    /// without a mine is left. Uncovering a mine loses the game and shows
    /// every mine. Other cells stay as they are.
    pub fn activate_tile(&mut self, idx: usize)
        requires
            old(self).wf(),
            idx < old(self).tiles@.len(),
        ensures
            final(self).wf(),
            final(self).tiles_x == old(self).tiles_x,
            final(self).tiles_y == old(self).tiles_y,
            final(self).mines_left == old(self).mines_left,
            old(self).tiles@[idx as int] == Tile::Clear ==> {
                &&& final(self).tiles@ == opened(
                    old(self).tiles@,
                    old(self).tiles_x as int,
                    old(self).tiles_y as int,
                    idx as int,
                )
                &&& final(self).state == if all_found(final(self).tiles@) {
                    GameState::Win
                } else {
                    old(self).state
                }
            },
            old(self).tiles@[idx as int] == Tile::Mine ==> {
                &&& final(self).tiles@ == exploded(old(self).tiles@, idx as int)
                &&& final(self).state == GameState::GameOver
            },
            old(self).tiles@[idx as int] != Tile::Clear && old(self).tiles@[idx as int] != Tile::Mine ==> {
                &&& final(self).tiles@ == old(self).tiles@
                &&& final(self).state == old(self).state
            },
        decreases clear_count(old(self).tiles@),
    {
        let ghost t = self.tiles@;
        let ghost tx = self.tiles_x as int;
        let ghost ty = self.tiles_y as int;
        let ghost state0 = self.state;
        let n = self.tiles.len();
        match self.tiles[idx] {
            Tile::Clear => {
                assert(self.tiles_x > 0) by (nonlinear_arith)
                    requires
                        idx < self.tiles@.len(),
                        self.tiles@.len() == self.tiles_x * self.tiles_y,
                ;
                let row = idx / self.tiles_x;
                let col = idx % self.tiles_x;
                assert(row <= idx && col <= idx) by (nonlinear_arith)
                    requires
                        self.tiles_x > 0,
                        row == idx / self.tiles_x,
                        col == idx % self.tiles_x,
                ;
                assert(row as isize as int == idx as int / tx && col as isize as int == idx as int % tx);
                let neighbors = self.get_neighbors(row as isize, col as isize);
                let ghost cells = cells_of(neighbors@);
                assert(cells == neighbor_cells(tx, ty, idx as int));
                proof {
                    lemma_neighbors_on_field(tx, ty, row as int, col as int, 0);
                }
                let count = count_mines(&neighbors, Ghost(t));
                self.tiles.set(idx, Tile::Neighbors(count));
                let ghost t1 = self.tiles@;
                if count == 0 {
                    proof {
                        assert(t1 == t.update(idx as int, Tile::Neighbors(0)));
                        lemma_mines_among_zero(t, cells);
                        assert(uncovered(t1, tx, ty, opened_by_first(t1, tx, ty, cells, 0)) =~= t1);
                        lemma_clear_count_update(t, idx as int, Tile::Neighbors(0));
                    }
                    let mut k: usize = 0;
                    while k < neighbors.len()
                        invariant
                            self.wf(),
                            self.tiles_x == tx,
                            self.tiles_y == ty,
                            self.mines_left == old(self).mines_left,
                            t == old(self).tiles@,
                            t.len() == tx * ty,
                            t1.len() == t.len(),
                            0 <= idx < t.len(),
                            t1 == t.update(idx as int, Tile::Neighbors(0)),
                            clear_count(t1) + 1 == clear_count(t),
                            cells == cells_of(neighbors@),
                            cells == neighbor_cells(tx, ty, idx as int),
                            forall|m: int| #[trigger] cells.contains(m) ==> 0 <= m < tx * ty,
                            forall|j: int| 0 <= j < cells.len() ==> !mine_like(t[#[trigger] cells[j]]),
                            k <= cells.len(),
                            self.tiles@ == uncovered(t1, tx, ty, opened_by_first(t1, tx, ty, cells, k as int)),
                            closed(t1, tx, ty, opened_by_first(t1, tx, ty, cells, k as int)),
                            self.state == state0 || (self.state == GameState::Win && all_found(self.tiles@)),
                            state0 == old(self).state,
                        decreases cells.len() - k,
                    {
                        let ghost u = opened_by_first(t1, tx, ty, cells, k as int);
                        let ghost g = self.tiles@;
                        let next = neighbors[k].0;
                        assert(cells[k as int] == next as int);
                        assert(cells.contains(cells[k as int]));
                        proof {
                            assert forall|c: int| 0 <= c < t1.len() && #[trigger] g[c] == Tile::Clear implies t1[c]
                                == Tile::Clear by {}
                            lemma_clear_count_le(t1, g);
                            lemma_open_after(t1, tx, ty, u, next as int);
                            assert(!mine_like(t[next as int]));
                        }
                        self.activate_tile(next);
                        proof {
                            if !(g[next as int] == Tile::Clear) {
                                lemma_opened_noop(g, tx, ty, next as int);
                            }
                            let w = |c: int| u(c) || opens(t1, tx, ty, next as int, c);
                            assert(opened_by_first(t1, tx, ty, cells, k + 1) =~= w) by {
                                assert forall|c: int| #[trigger] opened_by_first(t1, tx, ty, cells, k + 1)(c) == w(c) by {
                                    if opened_by_first(t1, tx, ty, cells, k + 1)(c) {
                                        let j = choose|j: int| 0 <= j < k + 1 && #[trigger] opens(t1, tx, ty, cells[j], c);
                                        if j < k {
                                            assert(u(c));
                                        }
                                    }
                                    if u(c) {
                                        let j = choose|j: int| 0 <= j < k && #[trigger] opens(t1, tx, ty, cells[j], c);
                                        assert(opened_by_first(t1, tx, ty, cells, k + 1)(c));
                                    }
                                    if opens(t1, tx, ty, next as int, c) {
                                        assert(opens(t1, tx, ty, cells[k as int], c));
                                    }
                                }
                            }
                            if self.state == GameState::Win && !(state0 == GameState::Win) {
                                assert(all_found(self.tiles@));
                            }
                        }
                        k = k + 1;
                    }
                    proof {
                        let u = opened_by_first(t1, tx, ty, cells, cells.len() as int);
                        assert forall|c: int| 0 <= c < t.len() implies #[trigger] self.tiles@[c] == opened(t, tx, ty, idx as int)[c] by {
                            lemma_counts_same(t, t1, tx, ty, c);
                            if c == idx {
                                lemma_open_from_start(t, tx, ty, idx as int, if idx == 0 { 1int } else { 0int });
                                assert(!u(c));
                            } else {
                                lemma_open_from_start(t, tx, ty, idx as int, c);
                                if u(c) {
                                    let j = choose|j: int| 0 <= j < cells.len() && #[trigger] opens(t1, tx, ty, cells[j], c);
                                    assert(opens(t, tx, ty, idx as int, c));
                                }
                            }
                        }
                        assert(self.tiles@ =~= opened(t, tx, ty, idx as int));
                    }
                } else {
                    proof {
                        lemma_open_single(t, tx, ty, idx as int);
                        assert(self.tiles@ =~= opened(t, tx, ty, idx as int));
                    }
                }
                let ghost done = self.tiles@;
                let ghost state1 = self.state;
                let mut any_clear = false;
                let mut c: usize = 0;
                while c < self.tiles.len()
                    invariant
                        self.wf(),
                        self.tiles_x == tx,
                        self.tiles_y == ty,
                        self.mines_left == old(self).mines_left,
                        self.tiles@ == done,
                        self.state == state1,
                        c <= self.tiles@.len(),
                        any_clear <==> exists|j: int| 0 <= j < c && self.tiles@[j] == Tile::Clear,
                    decreases self.tiles@.len() - c,
                {
                    if matches!(self.tiles[c], Tile::Clear) {
                        any_clear = true;
                    }
                    c = c + 1;
                }
                if !any_clear {
                    self.state = GameState::Win;
                }
            },
            Tile::Mine => {
                self.state = GameState::GameOver;
                let mut i: usize = 0;
                while i < n
                    invariant
                        self.wf(),
                        self.tiles_x == tx,
                        self.tiles_y == ty,
                        self.mines_left == old(self).mines_left,
                        self.state == GameState::GameOver,
                        n == t.len(),
                        self.tiles@.len() == n,
                        0 <= idx < n,
                        t[idx as int] == Tile::Mine,
                        i <= n,
                        forall|c: int| 0 <= c < i ==> #[trigger] self.tiles@[c] == exploded(t, idx as int)[c],
                        forall|c: int| i <= c < n ==> #[trigger] self.tiles@[c] == t[c],
                    decreases n - i,
                {
                    if i == idx {
                        self.tiles.set(idx, Tile::MineExploded);
                    } else if matches!(self.tiles[i], Tile::Mine) {
                        self.tiles.set(i, Tile::MineShown);
                    }
                    i = i + 1;
                }
                assert(self.tiles@ =~= exploded(t, idx as int));
            },
            _ => {},
        }
    }
}

/// Uncovering a cell changes covered cells without a mine only, each into a
/// count of the mines around it; so every mine and flag stays where it is.
pub proof fn lemma_opened_keeps_mines(f: Seq<Tile>, tx: int, ty: int, s: int, c: int)
    requires
        0 <= c < f.len(),
    ensures
        opened(f, tx, ty, s).len() == f.len(),
        opened(f, tx, ty, s)[c] != f[c] ==> f[c] == Tile::Clear && opened(f, tx, ty, s)[c] == Tile::Neighbors(
            mine_count(f, tx, ty, c) as usize,
        ),
        mine_like(opened(f, tx, ty, s)[c]) == mine_like(f[c]),
{
    if opens(f, tx, ty, s, c) {
        let p = choose|p: Seq<int>| #[trigger] is_opening_path(f, tx, ty, p) && p[0] == s && p.last() == c;
        assert(f[p[p.len() - 1]] == Tile::Clear);
    }
}

/// Uncovering the same cell again changes nothing.
pub proof fn lemma_opened_twice(f: Seq<Tile>, tx: int, ty: int, s: int)
    requires
        0 <= s < f.len(),
    ensures
        opened(opened(f, tx, ty, s), tx, ty, s) == opened(f, tx, ty, s),
{
    let g = opened(f, tx, ty, s);
    if f[s] == Tile::Clear {
        let single = seq![s];
        assert(is_opening_path(f, tx, ty, single) && single[0] == s && single.last() == s);
        assert(g[s] is Neighbors);
    } else {
        lemma_opened_noop(f, tx, ty, s);
    }
    lemma_opened_noop(g, tx, ty, s);
}

} // verus!
