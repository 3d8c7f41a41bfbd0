//! Game of Life on a torus.
//!
//! A grid is a matrix of cells, `H` rows of `W` cells. Coordinates wrap in
//! both axes, so every cell has eight neighbours and no lookup can miss.

use vstd::arithmetic::div_mod::{
    lemma_add_mod_noop, lemma_fundamental_div_mod_converse, lemma_mod_bound,
    lemma_mod_multiples_vanish, lemma_mod_twice, lemma_small_mod,
};
use vstd::prelude::*;

verus! {

/// The grid sizes that the `i16` coordinates of a [`Point`] can address and
/// that a walk over the grid can count through.
pub open spec fn dims_ok(w: usize, h: usize) -> bool {
    0 < w <= i16::MAX && 0 < h < i16::MAX
}

/// Whether `g` has `h` rows of `w` cells each.
pub open spec fn rectangular(g: Seq<Seq<bool>>, w: int, h: int) -> bool {
    &&& g.len() == h
    &&& forall|y: int| 0 <= y < h ==> (#[trigger] g[y]).len() == w
}

/// The cell that the coordinates `(x, y)` stand for once both are wrapped
/// onto the grid.
pub open spec fn wrapped(g: Seq<Seq<bool>>, x: int, y: int) -> bool {
    g[y % (g.len() as int)][x % (g[0].len() as int)]
}

/// How far `v` lies outside `0..n`, measured from zero.
pub open spec fn excess(v: int, n: int) -> int {
    if v < 0 {
        -v
    } else if v >= n {
        v
    } else {
        0
    }
}

/// Adding or taking away the modulus once does not change the remainder.
pub proof fn lemma_mod_shift(v: int, m: int)
    requires
        m > 0,
    ensures
        (v + m) % m == v % m,
        (v - m) % m == v % m,
{
    lemma_mod_multiples_vanish(1, v, m);
    lemma_mod_multiples_vanish(-1, v, m);
}

/// The cell `x` of row `y` is cell `y * w + x` in row-major order.
pub proof fn lemma_row_major(x: int, y: int, w: int)
    requires
        0 <= x < w,
        0 <= y,
    ensures
        (y * w + x) / w == y,
        (y * w + x) % w == x,
{
    lemma_fundamental_div_mod_converse(y * w + x, w, y, x);
}

/// The cells of a grid of `h` rows of `w` cells in row-major order.
pub open spec fn row_major(g: Seq<Seq<bool>>, w: int, h: int) -> Seq<bool> {
    Seq::new((w * h) as nat, |i: int| g[i / w][i % w])
}

/// One for a live cell, zero for a dead one.
pub open spec fn lit(alive: bool) -> int {
    if alive {
        1
    } else {
        0
    }
}

/// The number of live cells among the eight neighbours of `(x, y)` on the torus.
pub open spec fn live_neighbours(g: Seq<Seq<bool>>, x: int, y: int) -> int {
    lit(wrapped(g, x - 1, y - 1)) + lit(wrapped(g, x, y - 1)) + lit(wrapped(g, x + 1, y - 1))
        + lit(wrapped(g, x - 1, y)) + lit(wrapped(g, x + 1, y)) + lit(wrapped(g, x - 1, y + 1))
        + lit(wrapped(g, x, y + 1)) + lit(wrapped(g, x + 1, y + 1))
}

/// The rule of the game: a live cell stays alive with two or three live
/// neighbours, a dead cell comes alive with exactly three.
pub open spec fn survives(alive: bool, neighbours: int) -> bool {
    if alive {
        neighbours == 2 || neighbours == 3
    } else {
        neighbours == 3
    }
}

/// The grid one generation after `g`.
pub open spec fn next_generation(g: Seq<Seq<bool>>) -> Seq<Seq<bool>> {
    Seq::new(
        g.len(),
        |y: int| Seq::new(g[0].len(), |x: int| survives(g[y][x], live_neighbours(g, x, y))),
    )
}

/// Whether no cell of `g` is alive.
pub open spec fn lifeless(g: Seq<Seq<bool>>) -> bool {
    forall|x: int, y: int| 0 <= y < g.len() && 0 <= x < g[y].len() ==> !g[y][x]
}

/// A grid without a live cell has no live cell in the next generation either.
pub proof fn lemma_lifeless_is_stable(g: Seq<Seq<bool>>, w: int, h: int)
    requires
        w > 0,
        h > 0,
        rectangular(g, w, h),
        lifeless(g),
    ensures
        next_generation(g) == g,
{
    assert forall|x: int, y: int| 0 <= x < w && 0 <= y < h implies live_neighbours(g, x, y)
        == 0 by {
        lemma_wrapped_in_range(g, w, h, x - 1, y - 1);
        lemma_wrapped_in_range(g, w, h, x, y - 1);
        lemma_wrapped_in_range(g, w, h, x + 1, y - 1);
        lemma_wrapped_in_range(g, w, h, x - 1, y);
        lemma_wrapped_in_range(g, w, h, x + 1, y);
        lemma_wrapped_in_range(g, w, h, x - 1, y + 1);
        lemma_wrapped_in_range(g, w, h, x, y + 1);
        lemma_wrapped_in_range(g, w, h, x + 1, y + 1);
    }
    assert(next_generation(g) =~~= g);
}

/// A wrapped lookup reads a cell of the grid.
pub proof fn lemma_wrapped_in_range(g: Seq<Seq<bool>>, w: int, h: int, x: int, y: int)
    requires
        w > 0,
        h > 0,
        rectangular(g, w, h),
    ensures
        0 <= x % w < w,
        0 <= y % h < h,
        wrapped(g, x, y) == g[y % h][x % w],
{
    lemma_mod_bound(x, w);
    lemma_mod_bound(y, h);
}

/// The seed made ready for use: a seed between 1 and 127 is multiplied by
/// 13 until it has reached 128. Zero cannot grow and stays zero.
pub open spec fn warmed(seed: u32) -> u32
    decreases
            (if seed < 128 {
                128 - seed
            } else {
                0
            }),
{
    if 0 < seed < 128 {
        warmed((seed * 13) as u32)
    } else {
        seed
    }
}

/// The working value after one cell has been taken from `v`: halved, and
/// multiplied by 13 where halving has brought it under 128.
pub open spec fn shifted(v: u32) -> u32 {
    let half = v / 2;
    if half < 128 {
        (half * 13) as u32
    } else {
        half as u32
    }
}

/// The working value from which cell `k`, counted in row-major order, is taken.
pub open spec fn seed_state(seed: u32, k: nat) -> u32
    decreases k,
{
    if k == 0 {
        warmed(seed)
    } else {
        shifted(seed_state(seed, (k - 1) as nat))
    }
}

/// Whether cell `k` of a grid seeded with `seed` is alive: the lowest bit
/// of the working value.
pub open spec fn seed_bit(seed: u32, k: nat) -> bool {
    seed_state(seed, k) % 2 == 1
}

/// The grid of `h` rows of `w` cells that `seed` gives.
pub open spec fn seeded(seed: u32, w: int, h: int) -> Seq<Seq<bool>> {
    Seq::new(h as nat, |y: int| Seq::new(w as nat, |x: int| seed_bit(seed, (y * w + x) as nat)))
}

/// Wrapped lookups do not tell coordinates apart that differ by the grid's size.
pub proof fn lemma_wrapped_periodic(g: Seq<Seq<bool>>, x: int, y: int)
    requires
        g.len() > 0,
        g[0].len() > 0,
    ensures
        wrapped(g, x + g[0].len(), y) == wrapped(g, x, y),
        wrapped(g, x, y + g.len()) == wrapped(g, x, y),
        wrapped(g, x % (g[0].len() as int), y % (g.len() as int)) == wrapped(g, x, y),
{
    let w = g[0].len() as int;
    let h = g.len() as int;
    lemma_mod_shift(x, w);
    lemma_mod_shift(y, h);
    lemma_mod_twice(x, w);
    lemma_mod_twice(y, h);
}

/// The neighbour count does not tell coordinates apart that wrap onto the same cell.
pub proof fn lemma_neighbours_wrap(g: Seq<Seq<bool>>, x: int, y: int)
    requires
        g.len() > 0,
        g[0].len() > 0,
    ensures
        live_neighbours(g, x % (g[0].len() as int), y % (g.len() as int)) == live_neighbours(
            g,
            x,
            y,
        ),
{
    let w = g[0].len() as int;
    let h = g.len() as int;
    lemma_add_mod_noop(x, -1, w);
    lemma_add_mod_noop(x, 1, w);
    lemma_add_mod_noop(y, -1, h);
    lemma_add_mod_noop(y, 1, h);
    lemma_add_mod_noop(x % w, -1, w);
    lemma_add_mod_noop(x % w, 1, w);
    lemma_add_mod_noop(y % h, -1, h);
    lemma_add_mod_noop(y % h, 1, h);
    lemma_mod_twice(x, w);
    lemma_mod_twice(y, h);
}

/// On a torus the cell in the corner has neighbours on the far edges: the
/// eight neighbours of `(0, 0)` are the cells of the last and the second
/// row, and of the last and the second column, that touch it across the
/// seams.
pub proof fn lemma_corner_neighbours(g: Seq<Seq<bool>>, w: int, h: int)
    requires
        w > 0,
        h > 0,
        rectangular(g, w, h),
    ensures
        wrapped(g, -1, -1) == g[h - 1][w - 1],
        wrapped(g, -1, 0) == g[0][w - 1],
        wrapped(g, 0, -1) == g[h - 1][0],
        live_neighbours(g, 0, 0) == lit(g[h - 1][w - 1]) + lit(g[h - 1][0]) + lit(
            g[h - 1][1int % w],
        ) + lit(g[0][w - 1]) + lit(g[0][1int % w]) + lit(g[1int % h][w - 1]) + lit(
            g[1int % h][0],
        ) + lit(g[1int % h][1int % w]),
{
    lemma_mod_shift(-1, w);
    lemma_mod_shift(-1, h);
    lemma_small_mod((w - 1) as nat, w as nat);
    lemma_small_mod((h - 1) as nat, h as nat);
    lemma_small_mod(0, w as nat);
    lemma_small_mod(0, h as nat);
}

/// Coordinates in a `W` x `H` grid, column first. They may lie outside the
/// grid: see [`Point::wrap`].
#[derive(Clone, Copy, Debug, PartialEq, Eq)]
pub struct Point<const W: usize, const H: usize>(pub i16, pub i16);

impl<const W: usize, const H: usize> Point<W, H> {
    /// Brings both coordinates onto the grid: each becomes its remainder
    /// modulo the grid's size in that axis.
    pub fn wrap(&mut self)
        requires
            0 < W <= i16::MAX,
            0 < H <= i16::MAX,
        ensures
            final(self).0 == (old(self).0 as int) % (W as int),
            final(self).1 == (old(self).1 as int) % (H as int),
    {
        loop
            invariant_except_break
                0 < W <= i16::MAX,
                0 < H <= i16::MAX,
                (self.0 as int) % (W as int) == (old(self).0 as int) % (W as int),
                (self.1 as int) % (H as int) == (old(self).1 as int) % (H as int),
            ensures
                self.0 == (old(self).0 as int) % (W as int),
                self.1 == (old(self).1 as int) % (H as int),
            decreases excess(self.0 as int, W as int) + excess(self.1 as int, H as int),
        {
            proof {
                lemma_mod_shift(self.0 as int, W as int);
                lemma_mod_shift(self.1 as int, H as int);
            }
            if self.0 < 0 {
                self.0 += W as i16
            } else if self.0 >= W as i16 {
                self.0 -= W as i16
            } else if self.1 < 0 {
                self.1 += H as i16
            } else if self.1 >= H as i16 {
                self.1 -= H as i16
            } else {
                proof {
                    lemma_small_mod(self.0 as nat, W as nat);
                    lemma_small_mod(self.1 as nat, H as nat);
                }
                break ;
            }
        }
    }
}

impl<const W: usize, const H: usize> core::ops::Add for Point<W, H> {
    type Output = Point<W, H>;

    /// Adds the coordinates axis by axis.
    fn add(self, rhs: Self) -> (sum: Point<W, H>) {
        Point(self.0 + rhs.0, self.1 + rhs.1)
    }
}

impl<const W: usize, const H: usize> vstd::std_specs::ops::AddSpecImpl for Point<W, H> {
    open spec fn obeys_add_spec() -> bool {
        true
    }

    /// Both sums must fit the coordinates.
    open spec fn add_req(self, rhs: Self) -> bool {
        &&& i16::MIN <= self.0 + rhs.0 <= i16::MAX
        &&& i16::MIN <= self.1 + rhs.1 <= i16::MAX
    }

    open spec fn add_spec(self, rhs: Self) -> Point<W, H> {
        Point((self.0 + rhs.0) as i16, (self.1 + rhs.1) as i16)
    }
}

/// The cells of a torus, `H` rows of `W` cells.
pub struct Grid<const W: usize, const H: usize> {
    points: [[bool; W]; H],
}

impl<const W: usize, const H: usize> View for Grid<W, H> {
    type V = Seq<Seq<bool>>;

    /// The rows from the first on, each from its first cell on.
    closed spec fn view(&self) -> Seq<Seq<bool>> {
        Seq::new(H as nat, |y: int| self.points[y]@)
    }
}

impl<const W: usize, const H: usize> Grid<W, H> {
    #[verifier::type_invariant]
    spec fn addressable(self) -> bool {
        dims_ok(W, H)
    }

    /// The view of a grid has the grid's shape.
    pub proof fn lemma_shape(&self)
        ensures
            rectangular(self@, W as int, H as int),
    {
    }

    /// A grid with every cell dead.
    pub fn new() -> (grid: Self)
        requires
            dims_ok(W, H),
        ensures
            rectangular(grid@, W as int, H as int),
            forall|x: int, y: int| 0 <= x < W && 0 <= y < H ==> !grid@[y][x],
    {
        Grid { points: [[false; W]; H] }
    }

    /// The cells in row-major order.
    pub fn iter_linear(&self) -> (cells: Vec<bool>)
        ensures
            cells@ == row_major(self@, W as int, H as int),
    {
        let mut cells: Vec<bool> = Vec::new();
        let mut y: usize = 0;
        while y < H
            invariant
                y <= H,
                cells@.len() == y * W,
                forall|i: int|
                    0 <= i < cells@.len() ==> cells@[i] == self@[i / (W as int)][i % (W as int)],
            decreases H - y,
        {
            let mut x: usize = 0;
            while x < W
                invariant
                    y < H,
                    x <= W,
                    cells@.len() == y * W + x,
                    forall|i: int|
                        0 <= i < cells@.len() ==> cells@[i] == self@[i / (W as int)][i % (
                        W as int)],
                decreases W - x,
            {
                proof {
                    lemma_row_major(x as int, y as int, W as int);
                }
                cells.push(self.points[y][x]);
                x += 1;
            }
            assert(y * W + W == (y + 1) * W) by (nonlinear_arith);
            y += 1;
        }
        assert(H * W == W * H) by (nonlinear_arith);
        assert(cells@ =~= row_major(self@, W as int, H as int));
        cells
    }

    /// Whether both grids hold the same cells.
    pub fn same_as(&self, other: &Self) -> (same: bool)
        ensures
            same == (self@ == other@),
    {
        let mut y: usize = 0;
        while y < H
            invariant
                y <= H,
                forall|b: int| 0 <= b < y ==> self@[b] == other@[b],
            decreases H - y,
        {
            let mut x: usize = 0;
            while x < W
                invariant
                    y < H,
                    x <= W,
                    forall|a: int| 0 <= a < x ==> self@[y as int][a] == other@[y as int][a],
                decreases W - x,
            {
                if self.points[y][x] != other.points[y][x] {
                    assert(self@[y as int][x as int] != other@[y as int][x as int]);
                    return false;
                }
                x += 1;
            }
            assert(self@[y as int] =~= other@[y as int]);
            y += 1;
        }
        assert(self@ =~= other@);
        true
    }

    /// Starts a walk over the grid at its first cell.
    pub fn iter(&self) -> (cells: GridIter<'_, W, H>)
        ensures
            cells.grid() == self@,
            cells.cursor() == (0int, 0int),
    {
        GridIter::new(self)
    }

    /// The cell at `p`, with `p` wrapped onto the grid.
    pub fn get(&self, p: Point<W, H>) -> (alive: bool)
        ensures
            alive == wrapped(self@, p.0 as int, p.1 as int),
    {
        proof {
            use_type_invariant(self);
        }
        let mut q = p;
        q.wrap();
        self.points[q.1 as usize][q.0 as usize]
    }

    /// Sets the cell in column `x` of row `y`. No other cell changes.
    fn put(&mut self, x: usize, y: usize, alive: bool)
        requires
            x < W,
            y < H,
        ensures
            final(self)@ == old(self)@.update(
                y as int,
                old(self)@[y as int].update(x as int, alive),
            ),
    {
        proof {
            use_type_invariant(&*self);
        }
        self.points[y][x] = alive;
        assert(final(self)@ =~~= old(self)@.update(
            y as int,
            old(self)@[y as int].update(x as int, alive),
        ));
    }

    /// Sets the cell at `p`, with `p` wrapped onto the grid. No other cell changes.
    pub fn set(&mut self, p: Point<W, H>, alive: bool)
        ensures
            final(self)@ == old(self)@.update(
                (p.1 as int) % (H as int),
                old(self)@[(p.1 as int) % (H as int)].update((p.0 as int) % (W as int), alive),
            ),
    {
        proof {
            use_type_invariant(&*self);
        }
        let mut q = p;
        q.wrap();
        self.put(q.0 as usize, q.1 as usize, alive);
    }
}

impl<const W: usize, const H: usize> PartialEq for Grid<W, H> {
    fn eq(&self, other: &Self) -> (same: bool) {
        self.same_as(other)
    }
}

impl<const W: usize, const H: usize> Eq for Grid<W, H> {

}

impl<const W: usize, const H: usize> vstd::std_specs::cmp::PartialEqSpecImpl for Grid<W, H> {
    open spec fn obeys_eq_spec() -> bool {
        true
    }

    /// Two grids are equal when they hold the same cells.
    open spec fn eq_spec(&self, other: &Self) -> bool {
        self@ == other@
    }
}

/// A walk over a grid, row by row from the first cell on.
///
/// The walk runs one row past the last: after the cells of the grid it
/// yields the points of row `H`, which wrap onto the first row.
pub struct GridIter<'a, const W: usize, const H: usize> {
    next: Point<W, H>,
    grid: &'a Grid<W, H>,
}

impl<'a, const W: usize, const H: usize> GridIter<'a, W, H> {
    #[verifier::type_invariant]
    spec fn on_track(self) -> bool {
        &&& dims_ok(W, H)
        &&& 0 <= self.next.0 < W
        &&& 0 <= self.next.1 <= H + 1
    }

    /// The cells of the grid that is walked.
    pub closed spec fn grid(&self) -> Seq<Seq<bool>> {
        self.grid@
    }

    /// Column and row of the point that comes next.
    pub closed spec fn cursor(&self) -> (int, int) {
        (self.next.0 as int, self.next.1 as int)
    }

    /// Whether the walk has yielded its last point.
    pub open spec fn done(&self) -> bool {
        self.cursor().1 > H
    }

    /// The cursor one step on: the next column, or the start of the next row.
    pub open spec fn step_on(cursor: (int, int)) -> (int, int) {
        if cursor.0 + 1 == W {
            (0int, cursor.1 + 1)
        } else {
            (cursor.0 + 1, cursor.1)
        }
    }

    /// A walk over `grid` that starts at its first cell.
    pub fn new(grid: &'a Grid<W, H>) -> (cells: Self)
        ensures
            cells.grid() == grid@,
            cells.cursor() == (0int, 0int),
    {
        proof {
            use_type_invariant(grid);
        }
        Self { next: Point(0, 0), grid }
    }

    /// Yields the point under the cursor with the cell it stands for, and
    /// moves the cursor on. Past row `H` it yields nothing and stays.
    pub fn next(&mut self) -> (item: Option<(Point<W, H>, bool)>)
        ensures
            final(self).grid() == old(self).grid(),
            0 <= old(self).cursor().0 < W,
            0 <= old(self).cursor().1 <= H + 1,
            old(self).done() ==> item is None && final(self).cursor() == old(self).cursor(),
            !old(self).done() ==> {
                &&& item matches Some((point, alive))
                &&& (point.0 as int, point.1 as int) == old(self).cursor()
                &&& alive == wrapped(old(self).grid(), point.0 as int, point.1 as int)
                &&& final(self).cursor() == Self::step_on(old(self).cursor())
            },
    {
        proof {
            use_type_invariant(&*self);
        }
        if self.next.1 > H as i16 {
            None
        } else {
            let r = (self.next, self.grid.get(self.next));
            let mut next = self.next;
            next.0 += 1;
            if next.0 == W as i16 {
                next = Point(0, next.1 + 1)
            }
            self.next = next;
            Some(r)
        }
    }
}

/// A Game of Life on a `W` x `H` torus.
pub struct Conway<const W: usize, const H: usize> {
    current: Grid<W, H>,
}

impl<const W: usize, const H: usize> View for Conway<W, H> {
    type V = Seq<Seq<bool>>;

    /// The cells of the current generation, row by row.
    closed spec fn view(&self) -> Seq<Seq<bool>> {
        self.current@
    }
}

impl<const W: usize, const H: usize> Conway<W, H> {
    /// The view of a game has the shape of its grid.
    pub proof fn lemma_shape(&self)
        ensures
            rectangular(self@, W as int, H as int),
    {
        self.current.lemma_shape();
    }

    /// Two games that were seeded with the same value hold the same cells.
    pub proof fn lemma_reset_deterministic(&self, other: &Self, seed: u32)
        requires
            self@ == seeded(seed, W as int, H as int),
            other@ == seeded(seed, W as int, H as int),
        ensures
            self@ == other@,
    {
    }

    /// A game that starts from the cells of `grid`.
    pub fn from_grid(grid: Grid<W, H>) -> (game: Self)
        ensures
            game@ == grid@,
    {
        Conway { current: grid }
    }

    /// The cells of the current generation.
    pub fn grid(&self) -> (grid: &Grid<W, H>)
        ensures
            grid@ == self@,
    {
        &self.current
    }

    /// A game seeded with `random`.
    pub fn new(random: u32) -> (game: Self)
        requires
            dims_ok(W, H),
        ensures
            game@ == seeded(random, W as int, H as int),
    {
        let mut c = Conway { current: Grid::new() };
        c.reset(random);
        c
    }

    /// Replaces every cell by the pattern that `random` gives. The pattern
    /// depends on the seed alone, not on the cells before.
    pub fn reset(&mut self, random: u32)
        ensures
            final(self)@ == seeded(random, W as int, H as int),
    {
        proof {
            use_type_invariant(&self.current);
        }
        let mut v: u32 = random;
        while 0 < v && v < 128
            invariant
                warmed(v) == warmed(random),
            decreases
                    (if v < 128 {
                        128 - v
                    } else {
                        0
                    }),
        {
            v = v * 13;
        }
        proof {
            self.lemma_shape();
        }
        let mut y: usize = 0;
        while y < H
            invariant
                dims_ok(W, H),
                rectangular(self@, W as int, H as int),
                y <= H,
                v == seed_state(random, (y * W) as nat),
                forall|a: int, b: int|
                    0 <= b < y && 0 <= a < W ==> self@[b][a] == seed_bit(
                        random,
                        (b * W + a) as nat,
                    ),
            decreases H - y,
        {
            let mut x: usize = 0;
            while x < W
                invariant
                    dims_ok(W, H),
                    rectangular(self@, W as int, H as int),
                    y < H,
                    x <= W,
                    v == seed_state(random, (y * W + x) as nat),
                    forall|a: int, b: int|
                        0 <= b < y && 0 <= a < W ==> self@[b][a] == seed_bit(
                            random,
                            (b * W + a) as nat,
                        ),
                    forall|a: int|
                        0 <= a < x ==> self@[y as int][a] == seed_bit(random, (y * W + a) as nat),
                decreases W - x,
            {
                assert(v & 1 == v % 2) by (bit_vector);
                assert(v >> 1 == v / 2) by (bit_vector);
                self.current.put(x, y, v & 1 == 1);
                v = v >> 1;
                if v < 128 {
                    v = v * 13;
                }
                x += 1;
            }
            assert(y * W + W == (y + 1) * W) by (nonlinear_arith);
            y += 1;
        }
        assert(self@ =~~= seeded(random, W as int, H as int));
    }

    /// Whether no cell is alive.
    pub fn all_dead(&self) -> (dead: bool)
        ensures
            dead == lifeless(self@),
    {
        let mut y: usize = 0;
        while y < H
            invariant
                y <= H,
                forall|a: int, b: int| 0 <= b < y && 0 <= a < W ==> !self@[b][a],
            decreases H - y,
        {
            let mut x: usize = 0;
            while x < W
                invariant
                    y < H,
                    x <= W,
                    forall|a: int| 0 <= a < x ==> !self@[y as int][a],
                decreases W - x,
            {
                if self.current.points[y][x] {
                    assert(self@[y as int][x as int]);
                    return false;
                }
                x += 1;
            }
            y += 1;
        }
        true
    }

    /// One if the cell at `(x, y)`, wrapped onto the grid, is alive, else zero.
    fn lit_at(&self, x: i16, y: i16) -> (n: u8)
        ensures
            n == lit(wrapped(self@, x as int, y as int)),
    {
        if self.current.get(Point(x, y)) {
            1
        } else {
            0
        }
    }

    /// The number of live cells among the eight neighbours of `index`.
    pub fn surrounding(&self, index: Point<W, H>) -> (count: u8)
        ensures
            count == live_neighbours(self@, index.0 as int, index.1 as int),
            count <= 8,
    {
        proof {
            use_type_invariant(&self.current);
            lemma_neighbours_wrap(self@, index.0 as int, index.1 as int);
        }
        let mut p = index;
        p.wrap();
        let (x, y) = (p.0, p.1);
        self.lit_at(x - 1, y - 1) + self.lit_at(x, y - 1) + self.lit_at(x + 1, y - 1)
            + self.lit_at(x - 1, y) + self.lit_at(x + 1, y) + self.lit_at(x - 1, y + 1)
            + self.lit_at(x, y + 1) + self.lit_at(x + 1, y + 1)
    }

    /// Moves the game on by one generation and tells whether any cell changed.
    ///
    /// The result is `false` exactly when the new generation equals the old one.
    pub fn step(&mut self) -> (changed: bool)
        ensures
            final(self)@ == next_generation(old(self)@),
            changed == (final(self)@ != old(self)@),
            !changed <==> next_generation(old(self)@) == old(self)@,
    {
        proof {
            use_type_invariant(&self.current);
        }
        let mut next = Grid::new();
        let mut cells = self.current.iter();
        loop
            invariant_except_break
                dims_ok(W, H),
                cells.grid() == self@,
                self@ == old(self)@,
                rectangular(next@, W as int, H as int),
                forall|x: int, y: int|
                    0 <= x < W && 0 <= y < H && (y < cells.cursor().1 || (y == cells.cursor().1
                        && x < cells.cursor().0)) ==> next@[y][x] == survives(
                        self@[y][x],
                        live_neighbours(self@, x, y),
                    ),
            ensures
                self@ == old(self)@,
                next@ == next_generation(self@),
            decreases H + 1 - cells.cursor().1, W - cells.cursor().0,
        {
            match cells.next() {
                Some((point, alive)) => {
                    let surrounding = self.surrounding(point);
                    let lives = match (alive, surrounding) {
                        (true, 2 | 3) => true,
                        (false, 3) => true,
                        _ => false,
                    };
                    proof {
                        lemma_wrapped_periodic(self@, point.0 as int, point.1 as int);
                        lemma_neighbours_wrap(self@, point.0 as int, point.1 as int);
                        lemma_small_mod(point.0 as nat, W as nat);
                        if point.1 < H {
                            lemma_small_mod(point.1 as nat, H as nat);
                        } else {
                            lemma_mod_shift(0, H as int);
                            lemma_small_mod(0, H as nat);
                        }
                        self.lemma_shape();
                    }
                    next.set(point, lives);
                },
                None => {
                    proof {
                        self.lemma_shape();
                    }
                    assert(next@ =~~= next_generation(self@));
                    break ;
                },
            }
        }
        if !self.current.same_as(&next) {
            self.current = next;
            true
        } else {
            false
        }
    }

    /// The cells in row-major order.
    pub fn iter_linear(&self) -> (cells: Vec<bool>)
        ensures
            cells@ == row_major(self@, W as int, H as int),
    {
        self.current.iter_linear()
    }
}

} // verus!
