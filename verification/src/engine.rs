use vstd::prelude::*;
use crate::lattice::{energy_delta, Lattice, LatticeView};
use crate::random::RandomSource;
use crate::topology::{AdjacencyContext, Cell};

verus! {

/// A trial in its proposed state: the site that was drawn and the energy
/// change that reversing its spin would book.
#[derive(Clone, Copy, Debug, PartialEq, Eq, Structural)]
pub struct Proposal {
    /// First coordinate of the site.
    pub x: usize,
    /// Second coordinate of the site.
    pub y: usize,
    /// Local energy with the spin reversed minus local energy as it is.
    pub delta: i64,
}

impl Proposal {
    /// The site as a mathematical cell.
    pub open spec fn cell(self) -> Cell {
        (self.x as int, self.y as int)
    }

    /// Whether the proposal is the one for cell `c` of the state `v`.
    pub open spec fn is_for(self, v: LatticeView, c: Cell) -> bool {
        &&& self.cell() == c
        &&& self.delta == energy_delta(v.torus(), v.spins, v.coupling.sign(), c)
    }

    /// Whether the move raises the energy, so that only a draw can accept it.
    pub fn needs_draw(&self) -> (b: bool)
        ensures
            b == (self.delta > 0),
    {
        self.delta > 0
    }
}

/// A trial in its resolved state.
#[derive(Clone, Copy, Debug, PartialEq, Eq, Structural)]
pub enum Outcome {
    /// The spin was reversed and the energy change booked.
    Accepted,
    /// Nothing was changed.
    Rejected,
}

/// The acceptance rule: a move that does not raise the energy is accepted
/// whatever the draw says; a move that raises it is accepted exactly when the
/// draw accepts.
pub open spec fn accepts(delta: int, draw_accepts: bool) -> bool {
    delta <= 0 || draw_accepts
}

/// The state that resolving proposal `p` with the given draw leaves behind.
pub open spec fn resolved(v: LatticeView, p: Proposal, draw_accepts: bool) -> LatticeView {
    if accepts(p.delta as int, draw_accepts) {
        v.with_flip(p.cell(), p.delta as int)
    } else {
        v
    }
}

/// The single-spin-flip dynamics, together with its count of proposals that
/// would have raised the energy.
///
/// A trial is a proposal followed by its resolution. The comparison of the
/// acceptance probability with a uniform draw is made by the caller, and only
/// for proposals that need it; its result is handed to [`Self::resolve`].
pub struct MetropolisEngine {
    unfavorable: u64,
}

impl MetropolisEngine {
    /// The number of proposals so far that would have raised the energy,
    /// accepted or not.
    pub closed spec fn count(&self) -> nat {
        self.unfavorable as nat
    }

    /// An engine that has seen no proposal yet.
    pub fn new() -> (engine: MetropolisEngine)
        ensures
            engine.count() == 0,
    {
        MetropolisEngine { unfavorable: 0 }
    }

    /// The number of proposals so far that would have raised the energy.
    /// This counts attempts, not reversed spins.
    pub fn unfavorable_attempts(&self) -> (n: u64)
        ensures
            n == self.count(),
    {
        self.unfavorable
    }

    /// Proposes to reverse the spin at `(x, y)`.
    pub fn propose_at(&mut self, ctx: &AdjacencyContext, lattice: &Lattice, x: usize, y: usize) -> (p:
        Proposal)
        requires
            ctx.wf(),
            lattice.wf(),
            lattice@.side() == ctx@.side,
            x < ctx@.side,
            y < ctx@.side,
            old(self).count() < u64::MAX,
        ensures
            p.is_for(lattice@, (x as int, y as int)),
            final(self).count() == old(self).count() + (if p.delta > 0 {
                1nat
            } else {
                0nat
            }),
    {
        let delta = lattice.delta_at(ctx, x, y);
        if delta > 0 {
            self.unfavorable = self.unfavorable + 1;
        }
        Proposal { x, y, delta }
    }

    /// Draws a site from `source` and proposes to reverse its spin.
    pub fn propose(&mut self, ctx: &AdjacencyContext, lattice: &Lattice, source: &mut RandomSource) -> (p:
        Proposal)
        requires
            ctx.wf(),
            lattice.wf(),
            lattice@.side() == ctx@.side,
            old(self).count() < u64::MAX,
        ensures
            ctx@.contains(p.cell()),
            p.is_for(lattice@, p.cell()),
            final(self).count() == old(self).count() + (if p.delta > 0 {
                1nat
            } else {
                0nat
            }),
    {
        let side = ctx.side();
        let (x, y) = source.next_site(side);
        self.propose_at(ctx, lattice, x, y)
    }

    /// Resolves a proposal: on acceptance the spin is reversed and the
    /// cached Hamiltonian moves by the proposal's energy change; on rejection
    /// nothing changes. `draw_accepts` is the caller's comparison of the
    /// acceptance probability with its draw and is only looked at for
    /// proposals that raise the energy.
    pub fn resolve(&self, lattice: &mut Lattice, p: &Proposal, draw_accepts: bool) -> (outcome:
        Outcome)
        requires
            old(lattice).wf(),
            p.x < old(lattice)@.side(),
            p.y < old(lattice)@.side(),
            accepts(p.delta as int, draw_accepts) ==> i128::MIN <= old(lattice)@.energy + p.delta
                <= i128::MAX,
        ensures
            outcome == Outcome::Accepted <==> accepts(p.delta as int, draw_accepts),
            final(lattice)@ == resolved(old(lattice)@, *p, draw_accepts),
            final(lattice).wf(),
    {
        if p.delta <= 0 || draw_accepts {
            lattice.flip(p.x, p.y, p.delta);
            Outcome::Accepted
        } else {
            Outcome::Rejected
        }
    }
}

} // verus!
