use vstd::prelude::*;

use crate::patterns::{
    beacon_cells, glider_cells, pattern_cells, pattern_fits, pulsar_cells, pulsar_offsets,
    spaceship_cells, toad_cells,
};

verus! {

/// The state of one cell.
#[derive(Clone, Copy, Debug, PartialEq, Eq, Structural)]
pub enum Cell {
    Dead,
    Alive,
}

/// A `width` by `height` grid of cells on a torus, stored row by row.
pub struct Universe {
    width: u32,
    height: u32,
    cells: Vec<Cell>,
}

/// The other state of a cell.
pub open spec fn flip(c: Cell) -> Cell {
    match c {
        Cell::Dead => Cell::Alive,
        Cell::Alive => Cell::Dead,
    }
}

/// 1 if the cell at (`r`, `c`) of a row-major grid of width `w` is alive, else 0.
pub open spec fn alive_at(cells: Seq<Cell>, w: int, r: int, c: int) -> int {
    if cells[r * w + c] == Cell::Alive {
        1
    } else {
        0
    }
}

/// The coordinate before `x` on a ring of `n` positions.
pub open spec fn before(x: int, n: int) -> int {
    if x == 0 {
        n - 1
    } else {
        x - 1
    }
}

/// The coordinate after `x` on a ring of `n` positions.
pub open spec fn after(x: int, n: int) -> int {
    if x == n - 1 {
        0
    } else {
        x + 1
    }
}

/// The number of live cells among the eight that surround (`r`, `c`), with the
/// grid's edges wrapping round.
pub open spec fn neighbor_count(cells: Seq<Cell>, w: int, h: int, r: int, c: int) -> int {
    let n = before(r, h);
    let s = after(r, h);
    let west = before(c, w);
    let east = after(c, w);
    alive_at(cells, w, n, west) + alive_at(cells, w, n, c) + alive_at(cells, w, n, east)
        + alive_at(cells, w, r, west) + alive_at(cells, w, r, east) + alive_at(cells, w, s, west)
        + alive_at(cells, w, s, c) + alive_at(cells, w, s, east)
}

/// What a cell becomes in the next generation when it has `n` live neighbours.
pub open spec fn evolve(cell: Cell, n: int) -> Cell {
    match cell {
        Cell::Alive => if n == 2 || n == 3 {
            Cell::Alive
        } else {
            Cell::Dead
        },
        Cell::Dead => if n == 3 {
            Cell::Alive
        } else {
            Cell::Dead
        },
    }
}

/// The generation that follows `cells` on a `w` by `h` torus.
pub open spec fn next_generation(cells: Seq<Cell>, w: int, h: int) -> Seq<Cell> {
    Seq::new(
        (w * h) as nat,
        |i: int| evolve(cells[i], neighbor_count(cells, w, h, i / w, i % w)),
    )
}

/// The grid that `Universe::new` seeds: alive where the index is a multiple of 2 or 7.
pub open spec fn seeded(len: nat) -> Seq<Cell> {
    Seq::new(
        len,
        |i: int|
            if i % 2 == 0 || i % 7 == 0 {
                Cell::Alive
            } else {
                Cell::Dead
            },
    )
}

/// A grid of `len` dead cells.
pub open spec fn all_dead(len: nat) -> Seq<Cell> {
    Seq::new(len, |i: int| Cell::Dead)
}

/// `cells` with every cell that `coords` names, in a grid of width `w`, set alive.
pub open spec fn with_alive(cells: Seq<Cell>, w: int, coords: Seq<(u32, u32)>) -> Seq<Cell> {
    Seq::new(
        cells.len(),
        |i: int|
            if exists|k: int| 0 <= k < coords.len() && coords[k].0 * w + coords[k].1 == i {
                Cell::Alive
            } else {
                cells[i]
            },
    )
}

/// Every coordinate pair lies inside a `w` by `h` grid.
pub open spec fn coords_in_grid(coords: Seq<(u32, u32)>, w: int, h: int) -> bool {
    forall|k: int| 0 <= k < coords.len() ==> coords[k].0 < h && coords[k].1 < w
}

/// The cell at `i` changed to its other state.
pub open spec fn toggled(cells: Seq<Cell>, i: int) -> Seq<Cell> {
    cells.update(i, flip(cells[i]))
}

/// The number of live cells in `cells`.
pub open spec fn live_count(cells: Seq<Cell>) -> nat
    decreases cells.len(),
{
    if cells.len() == 0 {
        0
    } else {
        live_count(cells.drop_last()) + if cells.last() == Cell::Alive {
            1nat
        } else {
            0nat
        }
    }
}

/// The character of a decimal digit.
pub open spec fn digit_char(d: nat) -> char {
    if d == 0 {
        '0'
    } else if d == 1 {
        '1'
    } else if d == 2 {
        '2'
    } else if d == 3 {
        '3'
    } else if d == 4 {
        '4'
    } else if d == 5 {
        '5'
    } else if d == 6 {
        '6'
    } else if d == 7 {
        '7'
    } else if d == 8 {
        '8'
    } else {
        '9'
    }
}

/// `n` written in decimal, without leading zeros.
pub open spec fn decimal(n: nat) -> Seq<char>
    decreases n,
{
    if n < 10 {
        seq![digit_char(n)]
    } else {
        decimal(n / 10).push(digit_char(n % 10))
    }
}

/// The summary that `get_stats` gives of a grid.
pub open spec fn stats_text(cells: Seq<Cell>) -> Seq<char> {
    "Live cells: "@ + decimal(live_count(cells)) + ", Total cells: "@ + decimal(cells.len())
}

/// The glyph that shows a cell.
pub open spec fn glyph(c: Cell) -> char {
    match c {
        Cell::Dead => '\u{25FB}',
        Cell::Alive => '\u{25FC}',
    }
}

/// Row `r` of a grid of width `w`, one glyph per cell.
pub open spec fn row_text(cells: Seq<Cell>, w: int, r: int) -> Seq<char> {
    Seq::new(w as nat, |c: int| glyph(cells[r * w + c]))
}

/// The first `rows` rows of a grid of width `w`, each followed by a line break.
pub open spec fn grid_text(cells: Seq<Cell>, w: int, rows: int) -> Seq<char>
    decreases rows,
{
    if rows <= 0 {
        Seq::empty()
    } else {
        grid_text(cells, w, rows - 1) + row_text(cells, w, rows - 1) + seq!['\n']
    }
}

proof fn lemma_index_in_grid(w: int, h: int, r: int, c: int)
    requires
        0 <= r < h,
        0 <= c < w,
    ensures
        0 <= r * w + c < w * h,
        (r * w + c) / w == r,
        (r * w + c) % w == c,
{
    assert(0 <= r * w + c < w * h) by (nonlinear_arith)
        requires
            0 <= r < h,
            0 <= c < w,
    ;
    vstd::arithmetic::div_mod::lemma_fundamental_div_mod_converse(r * w + c, w, r, c);
}

/// Appends the decimal digit `d` to `s`.
fn push_digit(s: &mut String, d: usize)
    requires
        d < 10,
    ensures
        final(s)@ == old(s)@.push(digit_char(d as nat)),
{
    proof {
        reveal_strlit("0");
        reveal_strlit("1");
        reveal_strlit("2");
        reveal_strlit("3");
        reveal_strlit("4");
        reveal_strlit("5");
        reveal_strlit("6");
        reveal_strlit("7");
        reveal_strlit("8");
        reveal_strlit("9");
    }
    if d == 0 {
        s.append("0");
    } else if d == 1 {
        s.append("1");
    } else if d == 2 {
        s.append("2");
    } else if d == 3 {
        s.append("3");
    } else if d == 4 {
        s.append("4");
    } else if d == 5 {
        s.append("5");
    } else if d == 6 {
        s.append("6");
    } else if d == 7 {
        s.append("7");
    } else if d == 8 {
        s.append("8");
    } else {
        s.append("9");
    }
}

/// Appends `n` in decimal to `s`.
fn push_decimal(s: &mut String, n: usize)
    ensures
        final(s)@ == old(s)@ + decimal(n as nat),
    decreases n,
{
    if n < 10 {
        push_digit(s, n);
    } else {
        push_decimal(s, n / 10);
        push_digit(s, n % 10);
        assert(final(s)@ =~= old(s)@ + decimal(n as nat));
    }
}

/// Whether two strings hold the same characters.
fn same_text(a: &str, b: &str) -> (r: bool)
    ensures
        r == (a@ == b@),
{
    let n = a.unicode_len();
    if n != b.unicode_len() {
        return false;
    }
    let mut i: usize = 0;
    while i < n
        invariant
            n == a@.len(),
            n == b@.len(),
            i <= n,
            forall|j: int| 0 <= j < i ==> a@[j] == b@[j],
        decreases n - i,
    {
        if a.get_char(i) != b.get_char(i) {
            return false;
        }
        i = i + 1;
    }
    assert(a@ =~= b@);
    true
}

impl View for Universe {
    type V = Seq<Cell>;

    closed spec fn view(&self) -> Seq<Cell> {
        self.cells@
    }
}

impl Universe {
    /// The width of the grid.
    pub closed spec fn spec_width(&self) -> int {
        self.width as int
    }

    /// The height of the grid.
    pub closed spec fn spec_height(&self) -> int {
        self.height as int
    }

    /// One cell per position, and a size that fits in `u32`.
    pub open spec fn wf(&self) -> bool {
        &&& self@.len() == self.spec_width() * self.spec_height()
        &&& self.spec_width() * self.spec_height() <= u32::MAX
    }

    /// A `width` by `height` universe seeded alive where the index is a multiple of 2 or 7.
    pub fn new(width: u32, height: u32) -> (r: Universe)
        requires
            width * height <= u32::MAX,
        ensures
            r.wf(),
            r.spec_width() == width,
            r.spec_height() == height,
            r@ == seeded((width * height) as nat),
    {
        let size = (width * height) as usize;
        let mut cells: Vec<Cell> = Vec::new();
        let mut i: usize = 0;
        while i < size
            invariant
                i <= size,
                cells@ == seeded(i as nat),
            decreases size - i,
        {
            let cell = if i % 2 == 0 || i % 7 == 0 {
                Cell::Alive
            } else {
                Cell::Dead
            };
            cells.push(cell);
            i = i + 1;
            assert(cells@ =~= seeded(i as nat));
        }
        Universe { width, height, cells }
    }

    /// The width of the grid.
    pub fn width(&self) -> (r: u32)
        ensures
            r == self.spec_width(),
    {
        self.width
    }

    /// The height of the grid.
    pub fn height(&self) -> (r: u32)
        ensures
            r == self.spec_height(),
    {
        self.height
    }

    /// The number of cells.
    pub fn cell_count(&self) -> (r: usize)
        ensures
            r == self@.len(),
    {
        self.cells.len()
    }

    /// The cells, row by row.
    pub fn get_cells(&self) -> (r: &[Cell])
        ensures
            r@ == self@,
    {
        self.cells.as_slice()
    }

    /// The position of (`row`, `column`) in the row-major cell buffer.
    pub fn get_index(&self, row: u32, column: u32) -> (r: usize)
        requires
            self.wf(),
            row < self.spec_height(),
            column < self.spec_width(),
        ensures
            r == row * self.spec_width() + column,
            r < self@.len(),
    {
        proof {
            lemma_index_in_grid(self.width as int, self.height as int, row as int, column as int);
        }
        (row * self.width + column) as usize
    }

    fn alive_value(&self, row: u32, column: u32) -> (r: u8)
        requires
            self.wf(),
            row < self.spec_height(),
            column < self.spec_width(),
        ensures
            r == alive_at(self@, self.spec_width(), row as int, column as int),
    {
        let idx = self.get_index(row, column);
        if self.cells[idx] == Cell::Alive {
            1
        } else {
            0
        }
    }

    /// The number of live cells among the eight around (`row`, `column`); row 0
    /// and row `height - 1` are neighbours, and so are column 0 and column `width - 1`.
    pub fn live_neighbor_count(&self, row: u32, column: u32) -> (r: u8)
        requires
            self.wf(),
            row < self.spec_height(),
            column < self.spec_width(),
        ensures
            r == neighbor_count(
                self@,
                self.spec_width(),
                self.spec_height(),
                row as int,
                column as int,
            ),
            r <= 8,
    {
        let north = if row == 0 {
            self.height - 1
        } else {
            row - 1
        };
        let south = if row == self.height - 1 {
            0
        } else {
            row + 1
        };
        let west = if column == 0 {
            self.width - 1
        } else {
            column - 1
        };
        let east = if column == self.width - 1 {
            0
        } else {
            column + 1
        };
        let mut count: u8 = 0;
        count = count + self.alive_value(north, west);
        count = count + self.alive_value(north, column);
        count = count + self.alive_value(north, east);
        count = count + self.alive_value(row, west);
        count = count + self.alive_value(row, east);
        count = count + self.alive_value(south, west);
        count = count + self.alive_value(south, column);
        count = count + self.alive_value(south, east);
        count
    }

    /// A `width` by `height` universe in which cell `i` is alive exactly when
    /// `draws[i]` is true; the draws come from a fair random source.
    pub fn random(width: u32, height: u32, draws: &[bool]) -> (r: Universe)
        requires
            width * height <= u32::MAX,
            draws@.len() == width * height,
        ensures
            r.wf(),
            r.spec_width() == width,
            r.spec_height() == height,
            r@ == Seq::new(
                draws@.len(),
                |i: int|
                    if draws@[i] {
                        Cell::Alive
                    } else {
                        Cell::Dead
                    },
            ),
    {
        let size = (width * height) as usize;
        let mut cells: Vec<Cell> = Vec::new();
        let mut i: usize = 0;
        while i < size
            invariant
                i <= size,
                size == draws@.len(),
                cells@.len() == i,
                forall|j: int|
                    0 <= j < i ==> cells@[j] == (if draws@[j] {
                        Cell::Alive
                    } else {
                        Cell::Dead
                    }),
            decreases size - i,
        {
            let cell = if draws[i] {
                Cell::Alive
            } else {
                Cell::Dead
            };
            cells.push(cell);
            i = i + 1;
        }
        let r = Universe { width, height, cells };
        assert(r@ =~= Seq::new(
            draws@.len(),
            |i: int|
                if draws@[i] {
                    Cell::Alive
                } else {
                    Cell::Dead
                },
        ));
        r
    }

    /// Replaces the grid with an all-dead one of the new dimensions.
    pub fn resize(&mut self, width: u32, height: u32)
        requires
            width * height <= u32::MAX,
        ensures
            final(self).wf(),
            final(self).spec_width() == width,
            final(self).spec_height() == height,
            final(self)@ == all_dead((width * height) as nat),
    {
        self.width = width;
        self.height = height;
        let size = (width * height) as usize;
        let mut cells: Vec<Cell> = Vec::new();
        let mut i: usize = 0;
        while i < size
            invariant
                i <= size,
                cells@ == all_dead(i as nat),
            decreases size - i,
        {
            cells.push(Cell::Dead);
            i = i + 1;
            assert(cells@ =~= all_dead(i as nat));
        }
        self.cells = cells;
    }

    /// Sets every cell dead.
    pub fn clear(&mut self)
        requires
            old(self).wf(),
        ensures
            final(self).wf(),
            final(self).spec_width() == old(self).spec_width(),
            final(self).spec_height() == old(self).spec_height(),
            final(self)@ == all_dead(old(self)@.len()),
    {
        let n = self.cells.len();
        let mut i: usize = 0;
        while i < n
            invariant
                self.wf(),
                self.width == old(self).width,
                self.height == old(self).height,
                n == self@.len(),
                i <= n,
                forall|j: int| 0 <= j < i ==> self@[j] == Cell::Dead,
            decreases n - i,
        {
            self.cells.set(i, Cell::Dead);
            i = i + 1;
        }
        assert(self@ =~= all_dead(n as nat));
    }

    /// Flips the cell at (`row`, `column`) between dead and alive.
    pub fn toggle_cell(&mut self, row: u32, column: u32)
        requires
            old(self).wf(),
            row < old(self).spec_height(),
            column < old(self).spec_width(),
        ensures
            final(self).wf(),
            final(self).spec_width() == old(self).spec_width(),
            final(self).spec_height() == old(self).spec_height(),
            final(self)@ == toggled(old(self)@, row * old(self).spec_width() + column),
    {
        let idx = self.get_index(row, column);
        let next = match self.cells[idx] {
            Cell::Dead => Cell::Alive,
            Cell::Alive => Cell::Dead,
        };
        self.cells.set(idx, next);
    }

    /// Sets alive each cell whose (row, column) is listed; other cells keep their state.
    pub fn set_cells(&mut self, cells: &[(u32, u32)])
        requires
            old(self).wf(),
            coords_in_grid(cells@, old(self).spec_width(), old(self).spec_height()),
        ensures
            final(self).wf(),
            final(self).spec_width() == old(self).spec_width(),
            final(self).spec_height() == old(self).spec_height(),
            final(self)@ == with_alive(old(self)@, old(self).spec_width(), cells@),
    {
        let ghost w = self.width as int;
        let mut k: usize = 0;
        while k < cells.len()
            invariant
                self.wf(),
                self.width == old(self).width,
                self.height == old(self).height,
                w == self.width,
                k <= cells@.len(),
                coords_in_grid(cells@, w, self.spec_height()),
                self@ == with_alive(old(self)@, w, cells@.subrange(0, k as int)),
            decreases cells@.len() - k,
        {
            let (row, col) = cells[k];
            let idx = self.get_index(row, col);
            let ghost before_set = self@;
            self.cells.set(idx, Cell::Alive);
            proof {
                let prev = cells@.subrange(0, k as int);
                let cur = cells@.subrange(0, k as int + 1);
                assert forall|i: int| 0 <= i < self@.len() implies self@[i] == with_alive(
                    old(self)@,
                    w,
                    cur,
                )[i] by {
                    if i == idx {
                        assert(cur[k as int].0 * w + cur[k as int].1 == i);
                    } else {
                        if exists|j: int| 0 <= j < cur.len() && cur[j].0 * w + cur[j].1 == i {
                            let j = choose|j: int|
                                0 <= j < cur.len() && cur[j].0 * w + cur[j].1 == i;
                            assert(prev[j] == cur[j]);
                        }
                        if exists|j: int| 0 <= j < prev.len() && prev[j].0 * w + prev[j].1 == i {
                            let j = choose|j: int|
                                0 <= j < prev.len() && prev[j].0 * w + prev[j].1 == i;
                            assert(prev[j] == cur[j]);
                        }
                    }
                }
                assert(self@ =~= with_alive(old(self)@, w, cur));
            }
            k = k + 1;
        }
        assert(cells@.subrange(0, cells@.len() as int) =~= cells@);
    }

    fn count_live(&self) -> (r: usize)
        ensures
            r == live_count(self@),
    {
        let n = self.cells.len();
        let mut count: usize = 0;
        let mut i: usize = 0;
        while i < n
            invariant
                n == self@.len(),
                i <= n,
                count <= i,
                count == live_count(self@.subrange(0, i as int)),
            decreases n - i,
        {
            assert(self@.subrange(0, i as int + 1).drop_last() =~= self@.subrange(0, i as int));
            if self.cells[i] == Cell::Alive {
                count = count + 1;
            }
            i = i + 1;
        }
        assert(self@.subrange(0, n as int) =~= self@);
        count
    }

    /// A summary of the form `Live cells: L, Total cells: T`.
    pub fn get_stats(&self) -> (r: String)
        ensures
            r@ == stats_text(self@),
    {
        let live = self.count_live();
        let mut text = String::from_str("Live cells: ");
        push_decimal(&mut text, live);
        text.append(", Total cells: ");
        push_decimal(&mut text, self.cells.len());
        text
    }

    /// The grid as text: one line per row, `\u{25FB}` for a dead cell and
    /// `\u{25FC}` for a live one.
    pub fn render(&self) -> (r: String)
        requires
            self.wf(),
        ensures
            r@ == grid_text(self@, self.spec_width(), self.spec_height()),
    {
        let ghost w = self.width as int;
        let ghost h = self.height as int;
        let mut text = String::new();
        let mut row: u32 = 0;
        while row < self.height
            invariant
                self.wf(),
                w == self.width,
                h == self.height,
                row <= h,
                text@ == grid_text(self@, w, row as int),
            decreases h - row,
        {
            let ghost start = text@;
            let mut col: u32 = 0;
            while col < self.width
                invariant
                    self.wf(),
                    w == self.width,
                    h == self.height,
                    row < h,
                    col <= w,
                    text@ == start + row_text(self@, w, row as int).subrange(0, col as int),
                decreases w - col,
            {
                let idx = self.get_index(row, col);
                if self.cells[idx] == Cell::Dead {
                    proof {
                        reveal_strlit("\u{25FB}");
                        assert("\u{25FB}"@ =~= seq![glyph(Cell::Dead)]);
                    }
                    text.append("\u{25FB}");
                } else {
                    proof {
                        reveal_strlit("\u{25FC}");
                        assert("\u{25FC}"@ =~= seq![glyph(Cell::Alive)]);
                    }
                    text.append("\u{25FC}");
                }
                assert(text@ =~= start + row_text(self@, w, row as int).subrange(0, col as int + 1));
                col = col + 1;
            }
            assert(row_text(self@, w, row as int).subrange(0, w) =~= row_text(self@, w, row as int));
            proof {
                reveal_strlit("\n");
                assert("\n"@ =~= seq!['\n']);
            }
            text.append("\n");
            assert(text@ =~= grid_text(self@, w, row as int + 1));
            row = row + 1;
        }
        text
    }

    fn load_glider(&mut self)
        requires
            old(self).wf(),
            old(self).spec_height() >= 4,
            old(self).spec_width() >= 4,
        ensures
            final(self).wf(),
            final(self).spec_width() == old(self).spec_width(),
            final(self).spec_height() == old(self).spec_height(),
            final(self)@ == with_alive(old(self)@, old(self).spec_width(), glider_cells()),
    {
        let cells: Vec<(u32, u32)> = vec![
            (1, 2),
            (2, 3),
            (3, 1),
            (3, 2),
            (3, 3),
        ];
        assert(cells@ =~= glider_cells());
        self.set_cells(cells.as_slice());
    }

    fn load_beacon(&mut self)
        requires
            old(self).wf(),
            old(self).spec_height() >= 5,
            old(self).spec_width() >= 5,
        ensures
            final(self).wf(),
            final(self).spec_width() == old(self).spec_width(),
            final(self).spec_height() == old(self).spec_height(),
            final(self)@ == with_alive(old(self)@, old(self).spec_width(), beacon_cells()),
    {
        let cells: Vec<(u32, u32)> = vec![
            (1, 1),
            (1, 2),
            (2, 1),
            (2, 2),
            (3, 3),
            (3, 4),
            (4, 3),
            (4, 4),
        ];
        assert(cells@ =~= beacon_cells());
        self.set_cells(cells.as_slice());
    }

    fn load_toad(&mut self)
        requires
            old(self).wf(),
            old(self).spec_height() >= 4,
            old(self).spec_width() >= 5,
        ensures
            final(self).wf(),
            final(self).spec_width() == old(self).spec_width(),
            final(self).spec_height() == old(self).spec_height(),
            final(self)@ == with_alive(old(self)@, old(self).spec_width(), toad_cells()),
    {
        let cells: Vec<(u32, u32)> = vec![
            (2, 2),
            (2, 3),
            (2, 4),
            (3, 1),
            (3, 2),
            (3, 3),
        ];
        assert(cells@ =~= toad_cells());
        self.set_cells(cells.as_slice());
    }

    fn load_spaceship(&mut self)
        requires
            old(self).wf(),
            old(self).spec_height() >= 5,
            old(self).spec_width() >= 6,
        ensures
            final(self).wf(),
            final(self).spec_width() == old(self).spec_width(),
            final(self).spec_height() == old(self).spec_height(),
            final(self)@ == with_alive(old(self)@, old(self).spec_width(), spaceship_cells()),
    {
        let cells: Vec<(u32, u32)> = vec![
            (1, 1),
            (1, 4),
            (2, 5),
            (3, 1),
            (3, 5),
            (4, 2),
            (4, 3),
            (4, 4),
            (4, 5),
        ];
        assert(cells@ =~= spaceship_cells());
        self.set_cells(cells.as_slice());
    }

    fn load_pulsar(&mut self)
        requires
            old(self).wf(),
            old(self).spec_height() >= 13,
            old(self).spec_width() >= 13,
        ensures
            final(self).wf(),
            final(self).spec_width() == old(self).spec_width(),
            final(self).spec_height() == old(self).spec_height(),
            final(self)@ == with_alive(
                old(self)@,
                old(self).spec_width(),
                pulsar_cells(old(self).spec_width(), old(self).spec_height()),
            ),
    {
        let ghost w = self.width as int;
        let ghost h = self.height as int;
        let center_row = self.height / 2;
        let center_col = self.width / 2;
        let offsets: Vec<(i32, i32)> = vec![
            (-6, -4),
            (-6, -3),
            (-6, -2),
            (-6, 2),
            (-6, 3),
            (-6, 4),
            (-4, -6),
            (-4, -1),
            (-4, 1),
            (-4, 6),
            (-3, -6),
            (-3, -1),
            (-3, 1),
            (-3, 6),
            (-2, -6),
            (-2, -1),
            (-2, 1),
            (-2, 6),
            (-1, -4),
            (-1, -3),
            (-1, -2),
            (-1, 2),
            (-1, 3),
            (-1, 4),
            (1, -4),
            (1, -3),
            (1, -2),
            (1, 2),
            (1, 3),
            (1, 4),
            (2, -6),
            (2, -1),
            (2, 1),
            (2, 6),
            (3, -6),
            (3, -1),
            (3, 1),
            (3, 6),
            (4, -6),
            (4, -1),
            (4, 1),
            (4, 6),
            (6, -4),
            (6, -3),
            (6, -2),
            (6, 2),
            (6, 3),
            (6, 4),
        ];
        assert(offsets@ =~= pulsar_offsets());
        let mut cells: Vec<(u32, u32)> = Vec::new();
        let mut k: usize = 0;
        while k < offsets.len()
            invariant
                w == self.width,
                h == self.height,
                h >= 13,
                w >= 13,
                center_row == h / 2,
                center_col == w / 2,
                offsets@ == pulsar_offsets(),
                k <= offsets@.len(),
                cells@ == pulsar_cells(w, h).subrange(0, k as int),
            decreases offsets@.len() - k,
        {
            let (dr, dc) = offsets[k];
            let height = self.height as i64;
            let width = self.width as i64;
            let row = ((center_row as i64 + dr as i64 + height) % height) as u32;
            let col = ((center_col as i64 + dc as i64 + width) % width) as u32;
            cells.push((row, col));
            k = k + 1;
            assert(cells@ =~= pulsar_cells(w, h).subrange(0, k as int));
        }
        assert(cells@ =~= pulsar_cells(w, h));
        self.set_cells(cells.as_slice());
    }

    /// Whether the grid is large enough for `load_pattern(pattern)`.
    pub fn fits_pattern(&self, pattern: &str) -> (r: bool)
        ensures
            r == pattern_fits(pattern@, self.spec_width(), self.spec_height()),
    {
        let (h, w) = (self.height, self.width);
        if same_text(pattern, "glider") {
            h >= 4 && w >= 4
        } else if same_text(pattern, "pulsar") {
            h >= 13 && w >= 13
        } else if same_text(pattern, "beacon") {
            h >= 5 && w >= 5
        } else if same_text(pattern, "toad") {
            h >= 4 && w >= 5
        } else if same_text(pattern, "spaceship") {
            h >= 5 && w >= 6
        } else {
            true
        }
    }

    /// Clears the grid and places the pattern called `pattern`: one of `glider`,
    /// `pulsar`, `beacon`, `toad` and `spaceship`. An unknown name leaves the grid
    /// cleared.
    pub fn load_pattern(&mut self, pattern: &str)
        requires
            old(self).wf(),
            pattern_fits(pattern@, old(self).spec_width(), old(self).spec_height()),
        ensures
            final(self).wf(),
            final(self).spec_width() == old(self).spec_width(),
            final(self).spec_height() == old(self).spec_height(),
            final(self)@ == with_alive(
                all_dead(old(self)@.len()),
                old(self).spec_width(),
                pattern_cells(pattern@, old(self).spec_width(), old(self).spec_height()),
            ),
    {
        self.clear();
        if same_text(pattern, "glider") {
            self.load_glider();
        } else if same_text(pattern, "pulsar") {
            self.load_pulsar();
        } else if same_text(pattern, "beacon") {
            self.load_beacon();
        } else if same_text(pattern, "toad") {
            self.load_toad();
        } else if same_text(pattern, "spaceship") {
            self.load_spaceship();
        } else {
            assert(self@ =~= with_alive(self@, self.spec_width(), Seq::empty()));
        }
    }

    /// Advances the universe by one generation, every cell at once.
    pub fn tick(&mut self)
        requires
            old(self).wf(),
        ensures
            final(self).wf(),
            final(self).spec_width() == old(self).spec_width(),
            final(self).spec_height() == old(self).spec_height(),
            final(self)@ == next_generation(
                old(self)@,
                old(self).spec_width(),
                old(self).spec_height(),
            ),
    {
        let ghost w = self.width as int;
        let ghost h = self.height as int;
        let ghost target = next_generation(self@, w, h);
        let mut next: Vec<Cell> = Vec::new();
        let mut row: u32 = 0;
        while row < self.height
            invariant
                self.wf(),
                w == self.width,
                h == self.height,
                target == next_generation(self@, w, h),
                row <= h,
                next@.len() == row * w,
                forall|i: int| 0 <= i < next@.len() ==> next@[i] == target[i],
            decreases h - row,
        {
            let mut col: u32 = 0;
            while col < self.width
                invariant
                    self.wf(),
                    w == self.width,
                    h == self.height,
                    target == next_generation(self@, w, h),
                    row < h,
                    col <= w,
                    next@.len() == row * w + col,
                    forall|i: int| 0 <= i < next@.len() ==> next@[i] == target[i],
                decreases w - col,
            {
                let idx = self.get_index(row, col);
                let cell = self.cells[idx];
                let live_neighbors = self.live_neighbor_count(row, col);
                let next_cell = match cell {
                    Cell::Alive => if live_neighbors == 2 || live_neighbors == 3 {
                        Cell::Alive
                    } else {
                        Cell::Dead
                    },
                    Cell::Dead => if live_neighbors == 3 {
                        Cell::Alive
                    } else {
                        Cell::Dead
                    },
                };
                proof {
                    lemma_index_in_grid(w, h, row as int, col as int);
                }
                next.push(next_cell);
                col = col + 1;
            }
            assert(next@.len() == (row + 1) * w) by (nonlinear_arith)
                requires
                    next@.len() == row * w + w,
            ;
            row = row + 1;
        }
        assert(next@.len() == w * h) by (nonlinear_arith)
            requires
                next@.len() == h * w,
        ;
        assert(next@ =~= target);
        self.cells = next;
    }
}

} // verus!
