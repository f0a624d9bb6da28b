//! The grid engine: the cell matrix, single-cell access, neighbor
//! counting, and the one-generation transition.

use vstd::prelude::*;

verus! {

/// One cell of the grid: dead or alive, nothing more.
#[derive(Clone, Copy, PartialEq, Eq, Structural, Debug)]
pub enum Cell {
    Dead,
    Alive,
}

/// A fixed-size rectangular grid of cells.
///
/// `width` and `height` are set at construction and never change.
/// Coordinates are `(x, y)` with `0 <= x < width` and `0 <= y < height`;
/// the view is row-major, so the cell at `(x, y)` is `self@[y][x]`.
pub struct Cells {
    pub width: usize,
    pub height: usize,
    pub cells: Vec<Vec<Cell>>,
}

impl View for Cells {
    type V = Seq<Seq<Cell>>;

    closed spec fn view(&self) -> Seq<Seq<Cell>> {
        self.cells@.map_values(|row: Vec<Cell>| row@)
    }
}

/// 1 if the condition holds, else 0; the indicator used to sum neighbors.
pub open spec fn one_if(b: bool) -> int {
    if b {
        1
    } else {
        0
    }
}

impl Cells {
    /// The shape invariant: exactly `height` rows of exactly `width` cells.
    pub open spec fn wf(&self) -> bool {
        &&& self@.len() == self.height
        &&& forall|y: int| 0 <= y < self@.len() ==> (#[trigger] self@[y]).len() == self.width
    }

    /// Whether `(x, y)` names a cell of the grid.
    pub open spec fn in_bounds(&self, x: int, y: int) -> bool {
        0 <= x < self.width && 0 <= y < self.height
    }

    /// Whether `(x, y)` is on the grid and holds a live cell.
    pub open spec fn alive_at(&self, x: int, y: int) -> bool {
        self.in_bounds(x, y) && self@[y][x] == Cell::Alive
    }

    /// The number of live cells among the up-to-8 Moore neighbors of
    /// `(x, y)` that lie on the grid; `(x, y)` itself is never counted.
    pub open spec fn neighbor_count(&self, x: int, y: int) -> int {
        one_if(self.alive_at(x - 1, y - 1)) + one_if(self.alive_at(x, y - 1)) + one_if(
            self.alive_at(x + 1, y - 1),
        ) + one_if(self.alive_at(x - 1, y)) + one_if(self.alive_at(x + 1, y)) + one_if(
            self.alive_at(x - 1, y + 1),
        ) + one_if(self.alive_at(x, y + 1)) + one_if(self.alive_at(x + 1, y + 1))
    }

    /// The state the cell at `(x, y)` takes in the next generation,
    /// by the standard rule: a live cell survives with 2 or 3 live
    /// neighbors, a dead cell comes alive with exactly 3, and every
    /// other cell is dead.
    pub open spec fn next_cell(&self, x: int, y: int) -> Cell {
        let n = self.neighbor_count(x, y);
        match self@[y][x] {
            Cell::Alive => if n == 2 || n == 3 {
                Cell::Alive
            } else {
                Cell::Dead
            },
            Cell::Dead => if n == 3 {
                Cell::Alive
            } else {
                Cell::Dead
            },
        }
    }

    /// The whole next generation, every cell computed from this grid.
    pub open spec fn next_gen(&self) -> Seq<Seq<Cell>> {
        Seq::new(
            self.height as nat,
            |y: int| Seq::new(self.width as nat, |x: int| self.next_cell(x, y)),
        )
    }

    /// A grid of the given size with every cell dead.
    pub fn new(width: usize, height: usize) -> (r: Cells)
        ensures
            r.wf(),
            r.width == width,
            r.height == height,
            forall|x: int, y: int| r.in_bounds(x, y) ==> #[trigger] r@[y][x] == Cell::Dead,
    {
        let mut cells: Vec<Vec<Cell>> = Vec::new();
        let mut y: usize = 0;
        while y < height
            invariant
                y <= height,
                cells@.len() == y,
                forall|j: int| 0 <= j < y ==> (#[trigger] cells@[j])@.len() == width,
                forall|j: int, i: int|
                    0 <= j < y && 0 <= i < width ==> #[trigger] cells@[j]@[i] == Cell::Dead,
            decreases height - y,
        {
            let mut row: Vec<Cell> = Vec::new();
            let mut x: usize = 0;
            while x < width
                invariant
                    x <= width,
                    row@.len() == x,
                    forall|i: int| 0 <= i < x ==> #[trigger] row@[i] == Cell::Dead,
                decreases width - x,
            {
                row.push(Cell::Dead);
                x = x + 1;
            }
            cells.push(row);
            y = y + 1;
        }
        Cells { width, height, cells }
    }

    /// The cell at `(x, y)`.
    pub fn get(&self, x: usize, y: usize) -> (r: &Cell)
        requires
            self.wf(),
            x < self.width,
            y < self.height,
        ensures
            *r == self@[y as int][x as int],
    {
        &self.cells[y][x]
    }

    /// Overwrite the cell at `(x, y)`; every other cell and the
    /// dimensions stay as they were.
    pub fn set(&mut self, x: usize, y: usize, cell: Cell)
        requires
            old(self).wf(),
            x < old(self).width,
            y < old(self).height,
        ensures
            final(self).wf(),
            final(self).width == old(self).width,
            final(self).height == old(self).height,
            final(self)@ == old(self)@.update(
                y as int,
                old(self)@[y as int].update(x as int, cell),
            ),
    {
        proof {
            assert(self@.len() == self.cells@.len());
            assert(self@[y as int] == self.cells@[y as int]@);
        }
        self.cells[y][x] = cell;
        proof {
            assert(self@ =~~= old(self)@.update(
                y as int,
                old(self)@[y as int].update(x as int, cell),
            ));
        }
    }

    /// The contribution of one row to a neighbor count: the live cells
    /// among `pos - 1`, `pos` and `pos + 1` that lie within the row,
    /// with `pos` itself skipped on the cell's own row.
    fn count_alive_cell_in_row(&self, row: &Vec<Cell>, pos: usize, skip_same_pos: bool) -> (r: i32)
        requires
            pos < row@.len(),
            row@.len() == self.width,
        ensures
            r == one_if(pos > 0 && row@[pos - 1] == Cell::Alive) + one_if(
                !skip_same_pos && row@[pos as int] == Cell::Alive,
            ) + one_if(pos + 1 < row@.len() && row@[pos + 1] == Cell::Alive),
    {
        let mut count: i32 = 0;
        if pos > 0 && row[pos - 1] == Cell::Alive {
            count += 1;
        }
        if !skip_same_pos && row[pos] == Cell::Alive {
            count += 1;
        }
        if pos < self.width - 1 && row[pos + 1] == Cell::Alive {
            count += 1;
        }
        count
    }

    /// The number of live cells among the Moore neighbors of `(x, y)`
    /// that lie on the grid; the cell itself is never counted.
    pub fn count_alive_adjacent_cells(&self, x: usize, y: usize) -> (r: i32)
        requires
            self.wf(),
            x < self.width,
            y < self.height,
        ensures
            r == self.neighbor_count(x as int, y as int),
            0 <= r <= 8,
    {
        let mut alive_cells: i32 = 0;
        proof {
            assert(self@.len() == self.cells@.len());
            assert(forall|j: int|
                0 <= j < self.cells@.len() ==> self@[j] == (#[trigger] self.cells@[j])@);
        }
        if y > 0 {
            alive_cells += self.count_alive_cell_in_row(&self.cells[y - 1], x, false);
        }
        alive_cells += self.count_alive_cell_in_row(&self.cells[y], x, true);
        if y < self.height - 1 {
            alive_cells += self.count_alive_cell_in_row(&self.cells[y + 1], x, false);
        }
        alive_cells
    }

    /// Advance the grid one generation. Every cell of the new matrix is
    /// computed from the matrix as it stood before the call; the new
    /// matrix replaces the old one in a single assignment, so no count
    /// ever reads a partially updated generation.
    pub fn step(&mut self)
        requires
            old(self).wf(),
        ensures
            final(self).wf(),
            final(self).width == old(self).width,
            final(self).height == old(self).height,
            final(self)@ == old(self).next_gen(),
    {
        let mut updated_cells: Vec<Vec<Cell>> = Vec::new();
        let mut y: usize = 0;
        while y < self.height
            invariant
                self.wf(),
                *self == *old(self),
                y <= self.height,
                updated_cells@.len() == y,
                forall|j: int| 0 <= j < y ==> (#[trigger] updated_cells@[j])@.len() == self.width,
                forall|j: int, i: int|
                    0 <= j < y && 0 <= i < self.width ==> #[trigger] updated_cells@[j]@[i]
                        == self.next_cell(i, j),
            decreases self.height - y,
        {
            let mut updated_row: Vec<Cell> = Vec::new();
            let mut x: usize = 0;
            while x < self.width
                invariant
                    self.wf(),
                    *self == *old(self),
                    y < self.height,
                    x <= self.width,
                    updated_row@.len() == x,
                    forall|i: int|
                        0 <= i < x ==> #[trigger] updated_row@[i] == self.next_cell(i, y as int),
                decreases self.width - x,
            {
                let adjacent_cells = self.count_alive_adjacent_cells(x, y);
                let next_cell = match *self.get(x, y) {
                    Cell::Alive => match adjacent_cells {
                        2 | 3 => Cell::Alive,
                        0 | 1 => Cell::Dead,
                        _ => Cell::Dead,
                    },
                    Cell::Dead => match adjacent_cells {
                        3 => Cell::Alive,
                        _ => Cell::Dead,
                    },
                };
                updated_row.push(next_cell);
                x = x + 1;
            }
            updated_cells.push(updated_row);
            y = y + 1;
        }
        self.cells = updated_cells;
        proof {
            assert(self@ =~~= old(self).next_gen());
        }
    }
}

/// Writing a cell and then reading the same coordinate yields the value
/// written: in the matrix that `set(x, y, c)` promises, the entry at
/// `(x, y)` — the one `get(x, y)` returns — is `c`.
pub proof fn lemma_set_get_round_trip(g: Cells, x: usize, y: usize, c: Cell)
    requires
        g.wf(),
        x < g.width,
        y < g.height,
    ensures
        g@.update(y as int, g@[y as int].update(x as int, c))[y as int][x as int] == c,
{
}

/// A neighbor count lies between 0 and 8 for every grid and every
/// coordinate: it is a sum of eight indicators, one per Moore neighbor,
/// and the cell at `(x, y)` itself is not among them.
pub proof fn lemma_neighbor_count_range(g: Cells, x: int, y: int)
    ensures
        0 <= g.neighbor_count(x, y) <= 8,
{
}

/// The coordinates that `gen_test_cells` sets alive.
pub open spec fn test_pattern_alive(x: int, y: int) -> bool {
    ||| (y == 0 && (x == 0 || x == 1 || x == 3))
    ||| (y == 1 && (x == 0 || x == 2))
    ||| (y == 3 && (x == 1 || x == 2 || x == 3))
    ||| (y == 4 && x == 2)
}

/// A 4-by-5 grid seeded with a small sample pattern:
///
/// ```text
/// ##.#
/// #.#.
/// ....
/// .###
/// ..#.
/// ```
pub fn gen_test_cells() -> (r: Cells)
    ensures
        r.wf(),
        r.width == 4,
        r.height == 5,
        forall|x: int, y: int|
            r.in_bounds(x, y) ==> ((#[trigger] r@[y][x]) == Cell::Alive <==> test_pattern_alive(
                x,
                y,
            )),
{
    let mut cells = Cells::new(4, 5);
    cells.set(0, 0, Cell::Alive);
    cells.set(1, 0, Cell::Alive);
    cells.set(3, 0, Cell::Alive);
    cells.set(0, 1, Cell::Alive);
    cells.set(2, 1, Cell::Alive);
    cells.set(1, 3, Cell::Alive);
    cells.set(2, 3, Cell::Alive);
    cells.set(3, 3, Cell::Alive);
    cells.set(2, 4, Cell::Alive);
    cells
}

} // verus!
