use vstd::prelude::*;
use crate::engine::{accepts, resolved, Proposal};
use crate::lattice::{
    energy_delta, energy_density, flipped, is_square, local_energy, pair_term, spin_at,
    total_energy, Grid, LatticeView,
};
use crate::sums::{
    grid_sum, in_rect, lemma_grid_sum_of_three, lemma_grid_sum_two_points, lemma_grid_sum_zero,
};
use crate::topology::{
    lemma_neighbors_differ, lemma_neighbors_stay_on_grid, lemma_single_cell_self_loops,
    torus_closure, Cell, Torus,
};

verus! {

/// One of the three directions that enter a local energy.
enum Direction {
    Right,
    Left,
    Down,
}

impl Direction {
    /// The neighbour of `c` in this direction.
    spec fn step(self, t: Torus, c: Cell) -> Cell {
        match self {
            Direction::Right => t.right(c),
            Direction::Left => t.left(c),
            Direction::Down => t.down(c),
        }
    }

    /// The cell whose neighbour in this direction is `c`.
    spec fn back(self, t: Torus, c: Cell) -> Cell {
        match self {
            Direction::Right => t.left(c),
            Direction::Left => t.right(c),
            Direction::Down => t.up(c),
        }
    }
}

/// The pair term of each cell with its neighbour in direction `d`.
spec fn bond(t: Torus, g: Grid, j: int, d: Direction) -> spec_fn(Cell) -> int {
    |c: Cell| pair_term(j, spin_at(g, c), spin_at(g, d.step(t, c)))
}

/// Reversing one spin keeps the shape of the grid and changes no other spin.
pub proof fn lemma_flipped_spin(g: Grid, side: int, c0: Cell, c: Cell)
    requires
        is_square(g, side),
        in_rect(c0, side, side),
        in_rect(c, side, side),
    ensures
        is_square(flipped(g, c0), side),
        spin_at(flipped(g, c0), c) == (if c == c0 {
            !spin_at(g, c0)
        } else {
            spin_at(g, c)
        }),
{
    let h = flipped(g, c0);
    assert(g[c0.0].len() == side);
    assert(g[c.0].len() == side);
    assert forall|x: int| 0 <= x < side implies (#[trigger] h[x]).len() == side by {
        assert(g[x].len() == side);
    }
}

/// Reversing the spin at `c0` changes the sum of the bonds of one direction
/// at two cells: at `c0` and at the cell that has `c0` as its neighbour.
proof fn lemma_bond_sum_after_flip(t: Torus, g: Grid, j: int, d: Direction, c0: Cell)
    requires
        t.side >= 2,
        is_square(g, t.side),
        t.contains(c0),
    ensures
        grid_sum(bond(t, flipped(g, c0), j, d), t.side, t.side) == grid_sum(
            bond(t, g, j, d),
            t.side,
            t.side,
        ) - 2 * pair_term(j, spin_at(g, c0), spin_at(g, d.step(t, c0))) - 2 * pair_term(
            j,
            spin_at(g, c0),
            spin_at(g, d.back(t, c0)),
        ),
{
    let h = flipped(g, c0);
    let f = bond(t, g, j, d);
    let f2 = bond(t, h, j, d);
    let p = c0;
    let q = d.back(t, c0);
    lemma_neighbors_differ(t, c0);
    lemma_neighbors_stay_on_grid(t, c0);
    torus_closure(t, c0);
    assert(d.step(t, q) == c0);
    assert(in_rect(p, t.side, t.side));
    assert(in_rect(q, t.side, t.side));
    assert forall|c: Cell| in_rect(c, t.side, t.side) && c != p && c != q implies f(c) == f2(c) by {
        lemma_neighbors_stay_on_grid(t, c);
        torus_closure(t, c);
        let n = d.step(t, c);
        assert(d.back(t, n) == c);
        assert(n != c0);
        lemma_flipped_spin(g, t.side, c0, c);
        lemma_flipped_spin(g, t.side, c0, n);
    }
    lemma_grid_sum_two_points(f, f2, t.side, t.side, p, q);
    lemma_flipped_spin(g, t.side, c0, c0);
    lemma_flipped_spin(g, t.side, c0, d.step(t, c0));
    lemma_flipped_spin(g, t.side, c0, q);
    assert(f2(p) - f(p) == -2 * pair_term(j, spin_at(g, c0), spin_at(g, d.step(t, c0))));
    assert(f2(q) - f(q) == -2 * pair_term(j, spin_at(g, c0), spin_at(g, q)));
}

/// The Hamiltonian is the negated sum of the bonds of the three directions.
proof fn lemma_total_energy_by_direction(t: Torus, g: Grid, j: int)
    ensures
        total_energy(t, g, j) == -(grid_sum(bond(t, g, j, Direction::Right), t.side, t.side)
            + grid_sum(bond(t, g, j, Direction::Left), t.side, t.side) + grid_sum(
            bond(t, g, j, Direction::Down),
            t.side,
            t.side,
        )),
{
    let h = energy_density(t, g, j);
    let a = bond(t, g, j, Direction::Right);
    let b = bond(t, g, j, Direction::Left);
    let d = bond(t, g, j, Direction::Down);
    assert forall|c: Cell| in_rect(c, t.side, t.side) implies h(c) == -(a(c) + b(c) + d(c)) by {}
    lemma_grid_sum_of_three(h, a, b, d, t.side, t.side);
}

/// What reversing the spin at `c` does to the local energies of the cells
/// that count `c` among their right, left and down neighbours: the cells to
/// the left of, to the right of and above `c`. A trial at `c` does not look
/// at these.
pub open spec fn neighbor_delta(t: Torus, g: Grid, j: int, c: Cell) -> int {
    2 * (pair_term(j, spin_at(g, c), spin_at(g, t.left(c))) + pair_term(
        j,
        spin_at(g, c),
        spin_at(g, t.right(c)),
    ) + pair_term(j, spin_at(g, c), spin_at(g, t.up(c))))
}

/// The part of the change of the recomputed Hamiltonian that a trial at `c`
/// does not book. On the grid with a single cell a reversal changes no local
/// energy at all, so the whole booked change is amiss.
pub open spec fn trial_drift(t: Torus, g: Grid, j: int, c: Cell) -> int {
    if t.side == 1 {
        -energy_delta(t, g, j, c)
    } else {
        neighbor_delta(t, g, j, c)
    }
}

/// On a grid with at least two cells per side, reversing the spin at `c`
/// changes the Hamiltonian by the energy change that a trial at `c` computes
/// plus the change in the local energies of the neighbours that look at `c`.
pub proof fn flip_changes_total_energy(t: Torus, g: Grid, j: int, c: Cell)
    requires
        t.side >= 2,
        is_square(g, t.side),
        t.contains(c),
    ensures
        total_energy(t, flipped(g, c), j) == total_energy(t, g, j) + energy_delta(t, g, j, c)
            + neighbor_delta(t, g, j, c),
{
    lemma_total_energy_by_direction(t, g, j);
    lemma_total_energy_by_direction(t, flipped(g, c), j);
    lemma_bond_sum_after_flip(t, g, j, Direction::Right, c);
    lemma_bond_sum_after_flip(t, g, j, Direction::Left, c);
    lemma_bond_sum_after_flip(t, g, j, Direction::Down, c);
}

/// On the grid with a single cell the Hamiltonian is `-3 J` whatever the
/// spin, while a trial computes an energy change of `6 J`.
pub proof fn single_cell_energy(t: Torus, g: Grid, j: int)
    requires
        t.side == 1,
        is_square(g, 1),
    ensures
        total_energy(t, g, j) == -3 * j,
        total_energy(t, flipped(g, (0, 0)), j) == -3 * j,
        energy_delta(t, g, j, (0, 0)) == 6 * j,
{
    let c = (0int, 0int);
    lemma_single_cell_self_loops(t, c);
    lemma_flipped_spin(g, 1, c, c);
    let h = flipped(g, c);
    assert(t.neighbors(c)[0] == c && t.neighbors(c)[1] == c && t.neighbors(c)[2] == c);
    assert(local_energy(t, g, j, c, false) == -3 * j);
    assert(local_energy(t, h, j, c, false) == -3 * j);
    reveal_with_fuel(grid_sum, 2);
    reveal_with_fuel(crate::sums::column_sum, 2);
    assert(energy_density(t, g, j)(c) == -3 * j);
    assert(energy_density(t, h, j)(c) == -3 * j);
}

/// Reversing a spin changes the recomputed Hamiltonian by what the trial
/// books plus the trial's drift, on every grid.
pub proof fn lemma_flip_drift(t: Torus, g: Grid, j: int, c: Cell)
    requires
        t.side >= 1,
        is_square(g, t.side),
        t.contains(c),
    ensures
        total_energy(t, flipped(g, c), j) == total_energy(t, g, j) + energy_delta(t, g, j, c)
            + trial_drift(t, g, j, c),
{
    if t.side == 1 {
        single_cell_energy(t, g, j);
    } else {
        flip_changes_total_energy(t, g, j, c);
    }
}

/// Without interaction every local energy, every energy change of a trial
/// and the Hamiltonian itself are zero, whatever the spins.
pub proof fn non_interacting_energy_vanishes(t: Torus, g: Grid, c: Cell, flip: bool)
    ensures
        local_energy(t, g, 0, c, flip) == 0,
        energy_delta(t, g, 0, c) == 0,
        trial_drift(t, g, 0, c) == 0,
        total_energy(t, g, 0) == 0,
{
    let f = energy_density(t, g, 0);
    assert forall|k: Cell| in_rect(k, t.side, t.side) implies f(k) == 0 by {}
    lemma_grid_sum_zero(f, t.side, t.side);
}

/// With interaction, a trial never books the whole change of the recomputed
/// Hamiltonian: its drift is an odd multiple of two and so never zero.
pub proof fn interacting_trial_always_drifts(t: Torus, g: Grid, j: int, c: Cell)
    requires
        j == 1 || j == -1,
    ensures
        trial_drift(t, g, j, c) != 0,
{
}

/// The state after trials at the given cells, one after the other, each of
/// them accepted.
pub open spec fn after_accepted(v: LatticeView, cells: Seq<Cell>) -> LatticeView
    decreases cells.len(),
{
    if cells.len() == 0 {
        v
    } else {
        let prev = after_accepted(v, cells.drop_last());
        prev.with_flip(
            cells.last(),
            energy_delta(prev.torus(), prev.spins, prev.coupling.sign(), cells.last()),
        )
    }
}

/// The drift of the trials at the given cells, each accepted, added up.
pub open spec fn total_drift(v: LatticeView, cells: Seq<Cell>) -> int
    decreases cells.len(),
{
    if cells.len() == 0 {
        0
    } else {
        let prev = after_accepted(v, cells.drop_last());
        total_drift(v, cells.drop_last()) + trial_drift(
            prev.torus(),
            prev.spins,
            prev.coupling.sign(),
            cells.last(),
        )
    }
}

/// Whether every one of `cells` is a cell of the grid of `v`.
pub open spec fn on_grid(v: LatticeView, cells: Seq<Cell>) -> bool {
    forall|i: int| 0 <= i < cells.len() ==> v.torus().contains(#[trigger] cells[i])
}

/// After any sequence of accepted trials the recomputed Hamiltonian is ahead
/// of the cached one by what it was ahead before plus the drift of the
/// trials. Shape and coupling of the lattice do not change.
pub proof fn lemma_accepted_trials_drift(v: LatticeView, cells: Seq<Cell>)
    requires
        v.wf(),
        on_grid(v, cells),
    ensures
        after_accepted(v, cells).wf(),
        after_accepted(v, cells).side() == v.side(),
        after_accepted(v, cells).coupling == v.coupling,
        after_accepted(v, cells).recomputed() - after_accepted(v, cells).energy == v.recomputed()
            - v.energy + total_drift(v, cells),
    decreases cells.len(),
{
    if cells.len() > 0 {
        let init = cells.drop_last();
        let c = cells.last();
        assert forall|i: int| 0 <= i < init.len() implies v.torus().contains(
            #[trigger] init[i],
        ) by {
            assert(init[i] == cells[i]);
        }
        lemma_accepted_trials_drift(v, init);
        let prev = after_accepted(v, init);
        assert(prev.torus() == v.torus());
        assert(v.torus().contains(cells[cells.len() - 1]));
        lemma_flipped_spin(prev.spins, prev.side(), c, c);
        lemma_flip_drift(prev.torus(), prev.spins, prev.coupling.sign(), c);
    }
}

/// An accepted trial is one step of [`after_accepted`].
pub proof fn accepted_trial_is_one_step(v: LatticeView, p: Proposal, draw_accepts: bool)
    requires
        p.is_for(v, p.cell()),
        accepts(p.delta as int, draw_accepts),
    ensures
        resolved(v, p, draw_accepts) == after_accepted(v, seq![p.cell()]),
{
    let cells = seq![p.cell()];
    assert(cells.drop_last() =~= Seq::<Cell>::empty());
    assert(after_accepted(v, cells.drop_last()) == v);
    assert(cells.last() == p.cell());
}

/// Energy consistency: when the cached Hamiltonian of a lattice equals the
/// recomputed one, it still does after any sequence of accepted trials whose
/// drift adds up to zero.
pub proof fn energy_consistency(v: LatticeView, cells: Seq<Cell>)
    requires
        v.wf(),
        v.is_consistent(),
        on_grid(v, cells),
        total_drift(v, cells) == 0,
    ensures
        after_accepted(v, cells).is_consistent(),
{
    lemma_accepted_trials_drift(v, cells);
}

/// Accepted trials whose drift does not add up to zero leave a cached
/// Hamiltonian that differs from the recomputed one.
pub proof fn drift_breaks_consistency(v: LatticeView, cells: Seq<Cell>)
    requires
        v.wf(),
        v.is_consistent(),
        on_grid(v, cells),
        total_drift(v, cells) != 0,
    ensures
        !after_accepted(v, cells).is_consistent(),
{
    lemma_accepted_trials_drift(v, cells);
}

/// Without interaction no sequence of accepted trials drifts, and a cached
/// Hamiltonian of zero stays zero throughout.
pub proof fn non_interacting_trials_never_drift(v: LatticeView, cells: Seq<Cell>)
    requires
        v.wf(),
        v.coupling.sign() == 0,
        on_grid(v, cells),
    ensures
        total_drift(v, cells) == 0,
        after_accepted(v, cells).energy == v.energy,
        after_accepted(v, cells).recomputed() == 0,
    decreases cells.len(),
{
    lemma_accepted_trials_drift(v, cells);
    let last = after_accepted(v, cells);
    non_interacting_energy_vanishes(last.torus(), last.spins, (0, 0), false);
    if cells.len() > 0 {
        let init = cells.drop_last();
        assert forall|i: int| 0 <= i < init.len() implies v.torus().contains(
            #[trigger] init[i],
        ) by {
            assert(init[i] == cells[i]);
        }
        non_interacting_trials_never_drift(v, init);
        lemma_accepted_trials_drift(v, init);
        let prev = after_accepted(v, init);
        non_interacting_energy_vanishes(prev.torus(), prev.spins, cells.last(), false);
    }
}

/// A proposal that does not raise the energy is accepted whatever the draw:
/// its acceptance does not depend on the temperature.
pub proof fn downhill_always_accepted(v: LatticeView, p: Proposal, draw_accepts: bool)
    requires
        p.delta <= 0,
    ensures
        accepts(p.delta as int, draw_accepts),
        resolved(v, p, draw_accepts) == v.with_flip(p.cell(), p.delta as int),
{
}

/// When the draw accepts nothing, as at vanishing temperature, only
/// proposals that do not raise the energy are accepted, and no trial raises
/// the cached Hamiltonian.
pub proof fn rejecting_draw_never_raises(v: LatticeView, p: Proposal)
    ensures
        accepts(p.delta as int, false) <==> p.delta <= 0,
        resolved(v, p, false).energy <= v.energy,
        p.delta > 0 ==> resolved(v, p, false) == v,
{
}

/// When the draw accepts everything, as at unbounded temperature, every
/// proposal is accepted.
pub proof fn accepting_draw_always_flips(v: LatticeView, p: Proposal)
    ensures
        accepts(p.delta as int, true),
        resolved(v, p, true) == v.with_flip(p.cell(), p.delta as int),
{
}

/// A trial is a function of the state, the site and the draw: two proposals
/// for the same cell of the same state are equal, and resolving them with
/// the same draw gives the same state.
pub proof fn trial_is_determined(
    v: LatticeView,
    c: Cell,
    p1: Proposal,
    p2: Proposal,
    draw_accepts: bool,
)
    requires
        p1.is_for(v, c),
        p2.is_for(v, c),
    ensures
        p1 == p2,
        resolved(v, p1, draw_accepts) == resolved(v, p2, draw_accepts),
{
}

} // verus!
