use vstd::prelude::*;
use crate::error::SimError;

verus! {

/// A cell of the grid, as mathematical coordinates `(x, y)`.
pub type Cell = (int, int);

/// The cell that a pair of machine coordinates stands for.
pub open spec fn cell_of(p: (usize, usize)) -> Cell {
    (p.0 as int, p.1 as int)
}

/// One step forward on a ring of `side` positions.
pub open spec fn ring_next(side: int, v: int) -> int {
    (v + 1) % side
}

/// One step backward on a ring of `side` positions.
pub open spec fn ring_prev(side: int, v: int) -> int {
    (v - 1 + side) % side
}

/// The periodic `side x side` grid, as a mathematical object.
pub struct Torus {
    pub side: int,
}

impl Torus {
    /// Whether `c` is a cell of this grid.
    pub open spec fn contains(self, c: Cell) -> bool {
        0 <= c.0 < self.side && 0 <= c.1 < self.side
    }

    /// The neighbour one step along `x`, wrapping at the edge.
    pub open spec fn right(self, c: Cell) -> Cell {
        (ring_next(self.side, c.0), c.1)
    }

    /// The neighbour one step back along `x`, wrapping at the edge.
    pub open spec fn left(self, c: Cell) -> Cell {
        (ring_prev(self.side, c.0), c.1)
    }

    /// The neighbour one step along `y`, wrapping at the edge.
    pub open spec fn down(self, c: Cell) -> Cell {
        (c.0, ring_next(self.side, c.1))
    }

    /// The neighbour one step back along `y`, wrapping at the edge.
    pub open spec fn up(self, c: Cell) -> Cell {
        (c.0, ring_prev(self.side, c.1))
    }

    /// The four neighbours of `c` in table order: right, left, down, up.
    pub open spec fn neighbors(self, c: Cell) -> Seq<Cell> {
        seq![self.right(c), self.left(c), self.down(c), self.up(c)]
    }
}

/// Stepping on a ring stays on the ring, and has the closed form that avoids
/// the remainder.
pub proof fn lemma_ring_steps(side: int, v: int)
    requires
        0 <= v < side,
    ensures
        ring_next(side, v) == (if v + 1 == side { 0 } else { v + 1 }),
        ring_prev(side, v) == (if v == 0 { side - 1 } else { v - 1 }),
        0 <= ring_next(side, v) < side,
        0 <= ring_prev(side, v) < side,
{
    if v + 1 == side {
        vstd::arithmetic::div_mod::lemma_mod_self_0(side);
    } else {
        vstd::arithmetic::div_mod::lemma_small_mod((v + 1) as nat, side as nat);
    }
    if v == 0 {
        vstd::arithmetic::div_mod::lemma_small_mod((side - 1) as nat, side as nat);
    } else {
        vstd::arithmetic::div_mod::lemma_mod_add_multiples_vanish(v - 1, side);
        vstd::arithmetic::div_mod::lemma_small_mod((v - 1) as nat, side as nat);
    }
}

/// Every neighbour of a cell of the grid is a cell of the grid.
pub proof fn lemma_neighbors_stay_on_grid(t: Torus, c: Cell)
    requires
        t.contains(c),
    ensures
        t.contains(t.right(c)),
        t.contains(t.left(c)),
        t.contains(t.down(c)),
        t.contains(t.up(c)),
{
    lemma_ring_steps(t.side, c.0);
    lemma_ring_steps(t.side, c.1);
}

/// Torus closure: on a grid of any side length from one up, a step to the
/// right followed by a step to the left returns to the starting cell, and so
/// does a step down followed by a step up. The same holds with the two steps
/// exchanged, so each direction is a bijection of the grid onto itself.
pub proof fn torus_closure(t: Torus, c: Cell)
    requires
        t.contains(c),
    ensures
        t.left(t.right(c)) == c,
        t.up(t.down(c)) == c,
        t.right(t.left(c)) == c,
        t.down(t.up(c)) == c,
{
    lemma_ring_steps(t.side, c.0);
    lemma_ring_steps(t.side, c.1);
    lemma_ring_steps(t.side, ring_next(t.side, c.0));
    lemma_ring_steps(t.side, ring_prev(t.side, c.0));
    lemma_ring_steps(t.side, ring_next(t.side, c.1));
    lemma_ring_steps(t.side, ring_prev(t.side, c.1));
}

/// On a grid with at least two cells per side no cell is its own neighbour.
pub proof fn lemma_neighbors_differ(t: Torus, c: Cell)
    requires
        t.contains(c),
        t.side >= 2,
    ensures
        t.right(c) != c,
        t.left(c) != c,
        t.down(c) != c,
        t.up(c) != c,
{
    lemma_ring_steps(t.side, c.0);
    lemma_ring_steps(t.side, c.1);
}

/// On the grid with a single cell, that cell is each of its own neighbours.
pub proof fn lemma_single_cell_self_loops(t: Torus, c: Cell)
    requires
        t.contains(c),
        t.side == 1,
    ensures
        t.neighbors(c) == seq![c, c, c, c],
{
    lemma_ring_steps(t.side, c.0);
    lemma_ring_steps(t.side, c.1);
}

/// The precomputed neighbour table of a periodic grid.
///
/// It is built once and only read afterwards.
pub struct AdjacencyContext {
    side: usize,
    adj: Vec<Vec<[(usize, usize); 4]>>,
}

impl View for AdjacencyContext {
    type V = Torus;

    closed spec fn view(&self) -> Torus {
        Torus { side: self.side as int }
    }
}

impl AdjacencyContext {
    /// The table entry for direction `k` of cell `(x, y)`.
    pub closed spec fn entry(&self, x: int, y: int, k: int) -> Cell {
        cell_of(self.adj@[x]@[y]@[k])
    }

    /// The table holds, for every cell of a non-empty grid whose cell count
    /// is addressable, its four neighbours in the order right, left, down, up.
    pub closed spec fn wf(&self) -> bool {
        &&& self.side >= 1
        &&& self.side * self.side <= usize::MAX
        &&& self.adj@.len() == self.side
        &&& forall|x: int| 0 <= x < self.side ==> (#[trigger] self.adj@[x])@.len() == self.side
        &&& forall|x: int, y: int, k: int|
            0 <= x < self.side && 0 <= y < self.side && 0 <= k < 4 ==> #[trigger] self.entry(
                x,
                y,
                k,
            ) == self@.neighbors((x, y))[k]
    }

    /// A well-formed table describes a grid with at least one cell whose
    /// cell count fits the machine's index type.
    pub proof fn lemma_side_bounds(&self)
        requires
            self.wf(),
        ensures
            1 <= self@.side <= usize::MAX,
            self@.side * self@.side <= usize::MAX,
    {
    }

    /// Builds the neighbour table of the `side x side` torus.
    ///
    /// A side length of zero is a configuration error. The cell count has to
    /// be addressable on this machine.
    pub fn build(side: usize) -> (r: Result<AdjacencyContext, SimError>)
        requires
            side * side <= usize::MAX,
        ensures
            side == 0 <==> r is Err,
            r is Err ==> r == Err::<AdjacencyContext, SimError>(SimError::InvalidConfiguration),
            r matches Ok(ctx) ==> ctx.wf() && ctx@.side == side,
    {
        if side == 0 {
            return Err(SimError::InvalidConfiguration);
        }
        proof {
            lemma_double_fits(side as int);
        }
        let mut adj: Vec<Vec<[(usize, usize); 4]>> = Vec::new();
        let mut x: usize = 0;
        while x < side
            invariant
                side >= 1,
                2 * side - 1 <= usize::MAX,
                x <= side,
                adj@.len() == x,
                forall|i: int| 0 <= i < x ==> (#[trigger] adj@[i])@.len() == side,
                forall|i: int, j: int, k: int|
                    0 <= i < x && 0 <= j < side && 0 <= k < 4 ==> cell_of(
                        #[trigger] adj@[i]@[j]@[k],
                    ) == (Torus { side: side as int }).neighbors((i, j))[k],
            decreases side - x,
        {
            let mut column: Vec<[(usize, usize); 4]> = Vec::new();
            let mut y: usize = 0;
            while y < side
                invariant
                    side >= 1,
                    2 * side - 1 <= usize::MAX,
                    x < side,
                    y <= side,
                    column@.len() == y,
                    forall|j: int, k: int|
                        0 <= j < y && 0 <= k < 4 ==> cell_of(#[trigger] column@[j]@[k]) == (Torus {
                            side: side as int,
                        }).neighbors((x as int, j))[k],
                decreases side - y,
            {
                let right: (usize, usize) = ((x + 1) % side, y);
                let left: (usize, usize) = ((x + side - 1) % side, y);
                let down: (usize, usize) = (x, (y + 1) % side);
                let up: (usize, usize) = (x, (y + side - 1) % side);
                let around: [(usize, usize); 4] = [right, left, down, up];
                column.push(around);
                y = y + 1;
            }
            adj.push(column);
            x = x + 1;
        }
        let ctx = AdjacencyContext { side, adj };
        Ok(ctx)
    }

    /// The side length of the grid.
    pub fn side(&self) -> (l: usize)
        requires
            self.wf(),
        ensures
            l == self@.side,
            l >= 1,
    {
        self.side
    }

    /// The four neighbours of `(x, y)`: right, left, down, up.
    pub fn neighbors(&self, x: usize, y: usize) -> (around: [(usize, usize); 4])
        requires
            self.wf(),
            self@.contains((x as int, y as int)),
        ensures
            forall|k: int|
                0 <= k < 4 ==> cell_of(#[trigger] around@[k]) == self@.neighbors(
                    (x as int, y as int),
                )[k],
            forall|k: int| 0 <= k < 4 ==> self@.contains(cell_of(#[trigger] around@[k])),
    {
        let around = self.adj[x][y];
        proof {
            lemma_neighbors_stay_on_grid(self@, (x as int, y as int));
            assert forall|k: int| 0 <= k < 4 implies cell_of(#[trigger] around@[k])
                == self@.neighbors((x as int, y as int))[k] by {
                assert(self.entry(x as int, y as int, k) == self@.neighbors(
                    (x as int, y as int),
                )[k]);
            }
        }
        around
    }
}

/// A side length whose square is addressable can be doubled without
/// leaving the index type.
proof fn lemma_double_fits(side: int)
    requires
        1 <= side,
        side * side <= usize::MAX,
    ensures
        2 * side - 1 <= usize::MAX,
{
    if side >= 2 {
        assert(2 * side <= side * side) by (nonlinear_arith)
            requires
                side >= 2,
        ;
    }
}

} // verus!
