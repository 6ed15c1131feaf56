use vstd::prelude::*;
use crate::error::SimError;
use crate::random::RandomSource;
use crate::sums::{column_sum, grid_sum};
use crate::topology::{cell_of, AdjacencyContext, Cell, Torus};

verus! {

/// How neighbouring spins interact; fixed for a run.
#[derive(Clone, Copy, Debug, PartialEq, Eq, Structural)]
pub enum Coupling {
    /// Aligned neighbours lower the energy (`J = +1`).
    Ferromagnetic,
    /// Anti-aligned neighbours lower the energy (`J = -1`).
    Antiferromagnetic,
    /// Neighbours do not interact (`J = 0`).
    NonInteracting,
}

impl Coupling {
    /// The coupling sign `J`.
    pub open spec fn sign(self) -> int {
        match self {
            Coupling::Ferromagnetic => 1,
            Coupling::Antiferromagnetic => -1,
            Coupling::NonInteracting => 0,
        }
    }

    /// The coupling with sign `j`, if `j` is one of `+1`, `-1` and `0`.
    pub fn from_sign(j: i64) -> (c: Option<Coupling>)
        ensures
            c is Some <==> (j == 1 || j == -1 || j == 0),
            c matches Some(k) ==> k.sign() == j,
    {
        if j == 1 {
            Some(Coupling::Ferromagnetic)
        } else if j == -1 {
            Some(Coupling::Antiferromagnetic)
        } else if j == 0 {
            Some(Coupling::NonInteracting)
        } else {
            None
        }
    }

    /// The coupling sign `J` as a machine integer.
    pub fn sign_value(self) -> (j: i64)
        ensures
            j == self.sign(),
    {
        match self {
            Coupling::Ferromagnetic => 1,
            Coupling::Antiferromagnetic => -1,
            Coupling::NonInteracting => 0,
        }
    }
}

/// A spin configuration: `g[x][y]` is `true` where the spin at `(x, y)` is up.
pub type Grid = Seq<Seq<bool>>;

/// Whether `g` has `side` columns of `side` spins each.
pub open spec fn is_square(g: Grid, side: int) -> bool {
    &&& g.len() == side
    &&& forall|x: int| 0 <= x < side ==> (#[trigger] g[x]).len() == side
}

/// The configuration held by nested vectors.
pub open spec fn grid_view(spins: Vec<Vec<bool>>) -> Grid {
    Seq::new(spins@.len(), |x: int| spins@[x]@)
}

/// The spin at cell `c`.
pub open spec fn spin_at(g: Grid, c: Cell) -> bool {
    g[c.0][c.1]
}

/// The configuration `g` with the spin at `c` reversed.
pub open spec fn flipped(g: Grid, c: Cell) -> Grid {
    g.update(c.0, g[c.0].update(c.1, !g[c.0][c.1]))
}

/// The glyph that stands for a spin in a textual rendering: `+` for up and
/// `0` for down.
pub open spec fn glyph(up: bool) -> char {
    if up {
        '+'
    } else {
        '0'
    }
}

/// The favourability of one pair of spins under coupling sign `j`: `+j` when
/// they are aligned and `-j` when they are not. Under ferromagnetic coupling
/// that is `+1` for aligned spins, under antiferromagnetic coupling `+1` for
/// anti-aligned spins, and always `0` without interaction.
pub open spec fn pair_term(j: int, a: bool, b: bool) -> int {
    if a == b {
        j
    } else {
        -j
    }
}

/// The local interaction energy of cell `c`.
///
/// The spin of the cell, reversed if `flip` is set, is paired with the spins
/// found in `g` at the right, left and down neighbours; the upward neighbour
/// is deliberately not part of the sum. The energy is the negated sum of the
/// three pair terms.
///
/// Because of the missing direction a horizontal bond enters the total energy
/// from both of its ends and a vertical bond from its upper end only.
pub open spec fn local_energy(t: Torus, g: Grid, j: int, c: Cell, flip: bool) -> int {
    let s = spin_at(g, c) != flip;
    -(pair_term(j, s, spin_at(g, t.right(c))) + pair_term(j, s, spin_at(g, t.left(c)))
        + pair_term(j, s, spin_at(g, t.down(c))))
}

/// The local interaction energy as a function of the cell.
pub open spec fn energy_density(t: Torus, g: Grid, j: int) -> spec_fn(Cell) -> int {
    |c: Cell| local_energy(t, g, j, c, false)
}

/// The Hamiltonian: the sum of the local interaction energies of all cells.
pub open spec fn total_energy(t: Torus, g: Grid, j: int) -> int {
    grid_sum(energy_density(t, g, j), t.side, t.side)
}

/// The energy change that a trial at `c` computes: the local energy of `c`
/// with its spin reversed minus its local energy as it is.
pub open spec fn energy_delta(t: Torus, g: Grid, j: int, c: Cell) -> int {
    local_energy(t, g, j, c, true) - local_energy(t, g, j, c, false)
}

/// The mathematical content of a [`Lattice`].
pub struct LatticeView {
    /// The spin configuration.
    pub spins: Grid,
    /// The coupling the energy is measured with.
    pub coupling: Coupling,
    /// The cached Hamiltonian.
    pub energy: int,
}

impl LatticeView {
    /// The side length of the grid.
    pub open spec fn side(self) -> int {
        self.spins.len() as int
    }

    /// The periodic grid the spins live on.
    pub open spec fn torus(self) -> Torus {
        Torus { side: self.side() }
    }

    /// The configuration is a non-empty square whose cell count is
    /// addressable.
    pub open spec fn wf(self) -> bool {
        &&& self.side() >= 1
        &&& self.side() * self.side() <= usize::MAX
        &&& is_square(self.spins, self.side())
    }

    /// The Hamiltonian recomputed from the spins alone.
    pub open spec fn recomputed(self) -> int {
        total_energy(self.torus(), self.spins, self.coupling.sign())
    }

    /// Whether the cached Hamiltonian equals the recomputed one.
    pub open spec fn is_consistent(self) -> bool {
        self.energy == self.recomputed()
    }

    /// The state after the spin at `c` was reversed and `delta` added to
    /// the cached Hamiltonian.
    pub open spec fn with_flip(self, c: Cell, delta: int) -> LatticeView {
        LatticeView {
            spins: flipped(self.spins, c),
            coupling: self.coupling,
            energy: self.energy + delta,
        }
    }
}

/// The spin grid together with its cached Hamiltonian.
pub struct Lattice {
    spins: Vec<Vec<bool>>,
    coupling: Coupling,
    ham: i128,
}

impl View for Lattice {
    type V = LatticeView;

    closed spec fn view(&self) -> LatticeView {
        LatticeView {
            spins: grid_view(self.spins),
            coupling: self.coupling,
            energy: self.ham as int,
        }
    }
}

/// The energy of one pair of spins under `coupling`.
fn pair_energy(coupling: Coupling, a: bool, b: bool) -> (e: i64)
    ensures
        e == pair_term(coupling.sign(), a, b),
{
    let j = coupling.sign_value();
    if a == b {
        j
    } else {
        -j
    }
}

/// The local interaction energy of cell `(x, y)` in `spins`, computed with
/// the cell's own spin, or with its reverse if `flip_spin` is set. The grid
/// is not changed.
pub fn interaction_energy(
    ctx: &AdjacencyContext,
    spins: &Vec<Vec<bool>>,
    coupling: Coupling,
    x: usize,
    y: usize,
    flip_spin: bool,
) -> (h: i64)
    requires
        ctx.wf(),
        is_square(grid_view(*spins), ctx@.side),
        x < ctx@.side,
        y < ctx@.side,
    ensures
        h == local_energy(ctx@, grid_view(*spins), coupling.sign(), (x as int, y as int), flip_spin),
        -3 <= h <= 3,
{
    let ghost g = grid_view(*spins);
    let ghost j = coupling.sign();
    let ghost c = (x as int, y as int);
    let around = ctx.neighbors(x, y);
    assert(g[x as int].len() == ctx@.side);
    let s1 = if flip_spin {
        !spins[x][y]
    } else {
        spins[x][y]
    };
    let mut h: i64 = 0;
    let mut n: usize = 0;
    while n < 3
        invariant
            n <= 3,
            g == grid_view(*spins),
            is_square(g, ctx@.side),
            s1 == (spin_at(g, c) != flip_spin),
            j == coupling.sign(),
            forall|k: int| 0 <= k < 4 ==> cell_of(#[trigger] around@[k]) == ctx@.neighbors(c)[k],
            forall|k: int| 0 <= k < 4 ==> ctx@.contains(cell_of(#[trigger] around@[k])),
            n == 0 ==> h == 0,
            n == 1 ==> h == -pair_term(j, s1, spin_at(g, ctx@.right(c))),
            n == 2 ==> h == -(pair_term(j, s1, spin_at(g, ctx@.right(c))) + pair_term(
                j,
                s1,
                spin_at(g, ctx@.left(c)),
            )),
            n == 3 ==> h == local_energy(ctx@, g, j, c, flip_spin),
        decreases 3 - n,
    {
        let (nx, ny) = around[n];
        assert(cell_of(around@[n as int]) == ctx@.neighbors(c)[n as int]);
        assert(ctx@.contains(cell_of(around@[n as int])));
        assert(g[nx as int].len() == ctx@.side);
        let s2 = spins[nx][ny];
        h = h - pair_energy(coupling, s1, s2);
        n = n + 1;
    }
    h
}

/// The Hamiltonian of `spins`, summed from scratch over every cell.
pub fn hamiltonian_of(ctx: &AdjacencyContext, spins: &Vec<Vec<bool>>, coupling: Coupling) -> (ham:
    i128)
    requires
        ctx.wf(),
        is_square(grid_view(*spins), ctx@.side),
    ensures
        ham == total_energy(ctx@, grid_view(*spins), coupling.sign()),
        -3 * (ctx@.side * ctx@.side) <= ham <= 3 * (ctx@.side * ctx@.side),
{
    let side = ctx.side();
    let ghost g = grid_view(*spins);
    let ghost f = energy_density(ctx@, g, coupling.sign());
    proof {
        ctx.lemma_side_bounds();
    }
    let mut ham: i128 = 0;
    let mut x: usize = 0;
    while x < side
        invariant
            ctx.wf(),
            side == ctx@.side,
            side * side <= usize::MAX,
            g == grid_view(*spins),
            is_square(g, ctx@.side),
            f == energy_density(ctx@, g, coupling.sign()),
            x <= side,
            ham == grid_sum(f, x as int, side as int),
            -3 * (x * side) <= ham <= 3 * (x * side),
        decreases side - x,
    {
        let mut column: i128 = 0;
        let mut y: usize = 0;
        while y < side
            invariant
                ctx.wf(),
                side == ctx@.side,
                g == grid_view(*spins),
                is_square(g, ctx@.side),
                f == energy_density(ctx@, g, coupling.sign()),
                x < side,
                y <= side,
                column == column_sum(f, x as int, y as int),
                -3 * y <= column <= 3 * y,
            decreases side - y,
        {
            let e = interaction_energy(ctx, spins, coupling, x, y, false);
            assert(f((x as int, y as int)) == e);
            column = column + e as i128;
            y = y + 1;
        }
        proof {
            assert(3 * ((x + 1) * side) == 3 * (x * side) + 3 * side) by (nonlinear_arith);
            assert((x + 1) * side <= side * side) by (nonlinear_arith)
                requires
                    x + 1 <= side,
            ;
        }
        ham = ham + column;
        x = x + 1;
    }
    ham
}

impl Lattice {
    /// The lattice has a well-formed content.
    pub open spec fn wf(&self) -> bool {
        self@.wf()
    }

    /// A lattice whose spins are drawn one by one from `source`, column by
    /// column, with its Hamiltonian summed from scratch.
    pub fn initialize(ctx: &AdjacencyContext, source: &mut RandomSource, coupling: Coupling) -> (lattice:
        Lattice)
        requires
            ctx.wf(),
        ensures
            lattice.wf(),
            lattice@.side() == ctx@.side,
            lattice@.coupling == coupling,
            lattice@.is_consistent(),
    {
        let side = ctx.side();
        let mut spins: Vec<Vec<bool>> = Vec::new();
        let mut x: usize = 0;
        while x < side
            invariant
                x <= side,
                spins@.len() == x,
                forall|i: int| 0 <= i < x ==> (#[trigger] spins@[i])@.len() == side,
            decreases side - x,
        {
            let mut column: Vec<bool> = Vec::new();
            let mut y: usize = 0;
            while y < side
                invariant
                    y <= side,
                    column@.len() == y,
                decreases side - y,
            {
                let up = source.next_spin();
                column.push(up);
                y = y + 1;
            }
            spins.push(column);
            x = x + 1;
        }
        proof {
            ctx.lemma_side_bounds();
        }
        let ham = hamiltonian_of(ctx, &spins, coupling);
        Lattice { spins, coupling, ham }
    }

    /// A lattice with the given spins, `spins[x][y]` being the spin at
    /// `(x, y)`, and its Hamiltonian summed from scratch.
    ///
    /// Spins that do not form a square of the context's side length are a
    /// configuration error.
    pub fn from_spins(ctx: &AdjacencyContext, coupling: Coupling, spins: Vec<Vec<bool>>) -> (r:
        Result<Lattice, SimError>)
        requires
            ctx.wf(),
        ensures
            r is Ok <==> is_square(grid_view(spins), ctx@.side),
            r matches Err(e) ==> e == SimError::InvalidConfiguration,
            r matches Ok(lattice) ==> {
                &&& lattice.wf()
                &&& lattice@.spins == grid_view(spins)
                &&& lattice@.coupling == coupling
                &&& lattice@.is_consistent()
            },
    {
        let side = ctx.side();
        if spins.len() != side {
            return Err(SimError::InvalidConfiguration);
        }
        let mut x: usize = 0;
        while x < side
            invariant
                x <= side,
                spins@.len() == side,
                forall|i: int| 0 <= i < x ==> (#[trigger] grid_view(spins)[i]).len() == side,
            decreases side - x,
        {
            if spins[x].len() != side {
                assert(grid_view(spins)[x as int].len() != side);
                return Err(SimError::InvalidConfiguration);
            }
            x = x + 1;
        }
        proof {
            ctx.lemma_side_bounds();
        }
        let ham = hamiltonian_of(ctx, &spins, coupling);
        Ok(Lattice { spins, coupling, ham })
    }

    /// The side length of the grid.
    pub fn side(&self) -> (l: usize)
        ensures
            l == self@.side(),
    {
        self.spins.len()
    }

    /// The spin at `(x, y)`: `true` for up.
    pub fn spin(&self, x: usize, y: usize) -> (up: bool)
        requires
            self.wf(),
            x < self@.side(),
            y < self@.side(),
        ensures
            up == spin_at(self@.spins, (x as int, y as int)),
    {
        assert(self@.spins[x as int].len() == self@.side());
        self.spins[x][y]
    }

    /// The cached Hamiltonian.
    pub fn hamiltonian(&self) -> (h: i128)
        ensures
            h == self@.energy,
    {
        self.ham
    }

    /// The coupling the lattice was built with.
    pub fn coupling(&self) -> (c: Coupling)
        ensures
            c == self@.coupling,
    {
        self.coupling
    }

    /// The glyphs of the grid in row-major order: entry `x` of row `y` is
    /// the glyph of the spin at `(x, y)`.
    pub fn glyph_rows(&self) -> (rows: Vec<Vec<char>>)
        requires
            self.wf(),
        ensures
            rows@.len() == self@.side(),
            forall|y: int| 0 <= y < self@.side() ==> (#[trigger] rows@[y])@.len() == self@.side(),
            forall|x: int, y: int|
                0 <= x < self@.side() && 0 <= y < self@.side() ==> #[trigger] rows@[y]@[x]
                    == glyph(spin_at(self@.spins, (x, y))),
    {
        let side = self.spins.len();
        let mut rows: Vec<Vec<char>> = Vec::new();
        let mut y: usize = 0;
        while y < side
            invariant
                self.wf(),
                side == self@.side(),
                y <= side,
                rows@.len() == y,
                forall|j: int| 0 <= j < y ==> (#[trigger] rows@[j])@.len() == side,
                forall|i: int, j: int|
                    0 <= i < side && 0 <= j < y ==> #[trigger] rows@[j]@[i] == glyph(
                        spin_at(self@.spins, (i, j)),
                    ),
            decreases side - y,
        {
            let mut row: Vec<char> = Vec::new();
            let mut x: usize = 0;
            while x < side
                invariant
                    self.wf(),
                    side == self@.side(),
                    y < side,
                    x <= side,
                    row@.len() == x,
                    forall|i: int|
                        0 <= i < x ==> #[trigger] row@[i] == glyph(
                            spin_at(self@.spins, (i, y as int)),
                        ),
                decreases side - x,
            {
                let up = self.spin(x, y);
                row.push(if up {
                    '+'
                } else {
                    '0'
                });
                x = x + 1;
            }
            rows.push(row);
            y = y + 1;
        }
        rows
    }

    /// The Hamiltonian summed from scratch over the current spins. The
    /// cached value is neither read nor changed.
    pub fn recompute(&self, ctx: &AdjacencyContext) -> (h: i128)
        requires
            ctx.wf(),
            self.wf(),
            self@.side() == ctx@.side,
        ensures
            h == self@.recomputed(),
    {
        hamiltonian_of(ctx, &self.spins, self.coupling)
    }

    /// Local energy of `(x, y)` before and after a hypothetical reversal of
    /// its spin, as a difference.
    pub fn delta_at(&self, ctx: &AdjacencyContext, x: usize, y: usize) -> (delta: i64)
        requires
            ctx.wf(),
            self.wf(),
            self@.side() == ctx@.side,
            x < self@.side(),
            y < self@.side(),
        ensures
            delta == energy_delta(
                ctx@,
                self@.spins,
                self@.coupling.sign(),
                (x as int, y as int),
            ),
            -6 <= delta <= 6,
    {
        let before = interaction_energy(ctx, &self.spins, self.coupling, x, y, false);
        let after = interaction_energy(ctx, &self.spins, self.coupling, x, y, true);
        after - before
    }

    /// Reverses the spin at `(x, y)` and adds `delta` to the cached
    /// Hamiltonian.
    pub(crate) fn flip(&mut self, x: usize, y: usize, delta: i64)
        requires
            old(self).wf(),
            x < old(self)@.side(),
            y < old(self)@.side(),
            i128::MIN <= old(self)@.energy + delta <= i128::MAX,
        ensures
            final(self)@ == old(self)@.with_flip((x as int, y as int), delta as int),
            final(self).wf(),
    {
        assert(self@.spins[x as int].len() == self@.side());
        let up = self.spins[x][y];
        self.spins[x][y] = !up;
        self.ham = self.ham + delta as i128;
        assert(self@.spins =~~= flipped(old(self)@.spins, (x as int, y as int)));
    }
}

} // verus!
