use ising2d::engine::{MetropolisEngine, Outcome, Proposal};
use ising2d::lattice::{Coupling, Lattice};
use ising2d::random::RandomSource;
use ising2d::topology::AdjacencyContext;
use rand::Rng;

fn torus(side: usize) -> AdjacencyContext {
    match AdjacencyContext::build(side) {
        Ok(ctx) => ctx,
        Err(e) => panic!("side {} was refused: {:?}", side, e),
    }
}

fn all_up(ctx: &AdjacencyContext, coupling: Coupling) -> Lattice {
    let side = ctx.side();
    match Lattice::from_spins(ctx, coupling, vec![vec![true; side]; side]) {
        Ok(l) => l,
        Err(e) => panic!("spins were refused: {:?}", e),
    }
}

fn snapshot(l: &Lattice) -> Vec<Vec<bool>> {
    let side = l.side();
    let mut spins = vec![vec![false; side]; side];
    for x in 0..side {
        for y in 0..side {
            spins[x][y] = l.spin(x, y);
        }
    }
    spins
}

/// One whole trial at temperature `temp`; returns the proposal and whether
/// it was accepted.
fn trial(
    engine: &mut MetropolisEngine,
    ctx: &AdjacencyContext,
    lattice: &mut Lattice,
    source: &mut RandomSource,
    temp: f64,
) -> (Proposal, bool) {
    let p = engine.propose(ctx, lattice, source);
    let draw_accepts = if p.needs_draw() {
        let probability = (-(p.delta as f64) / temp).exp();
        let random: f64 = source.generator().gen();
        probability >= random
    } else {
        false
    };
    let outcome = engine.resolve(lattice, &p, draw_accepts);
    (p, outcome == Outcome::Accepted)
}

#[test]
fn scenario_aligned_two_by_two() {
    let ctx = torus(2);
    let mut lattice = all_up(&ctx, Coupling::Ferromagnetic);
    assert_eq!(lattice.hamiltonian(), -12);
    let mut engine = MetropolisEngine::new();
    for x in 0..2 {
        for y in 0..2 {
            let p = engine.propose_at(&ctx, &lattice, x, y);
            assert_eq!(p, Proposal { x, y, delta: 6 });
            assert!(p.needs_draw());
        }
    }
    assert_eq!(engine.unfavorable_attempts(), 4);

    let temp = 1.0f64;
    let probability = (-6.0f64 / temp).exp();
    assert!((probability - 0.00248).abs() < 0.00001);
    let mut source = RandomSource::build([21u8; 32]);
    let mut twin = RandomSource::build([21u8; 32]);
    for _ in 0..200 {
        if lattice.hamiltonian() != -12 {
            break;
        }
        let site = twin.next_site(2);
        let random: f64 = twin.generator().gen();
        let expected = probability >= random;
        let before = snapshot(&lattice);
        let (p, accepted) = trial(&mut engine, &ctx, &mut lattice, &mut source, temp);
        assert_eq!((p.x, p.y), site);
        assert_eq!(p.delta, 6);
        assert_eq!(accepted, expected);
        if accepted {
            assert_eq!(lattice.hamiltonian(), -6);
            assert_eq!(lattice.spin(p.x, p.y), false);
        } else {
            assert_eq!(lattice.hamiltonian(), -12);
            assert_eq!(snapshot(&lattice), before);
        }
    }
}

#[test]
fn tie_between_probability_and_draw_accepts() {
    let ctx = torus(2);
    let mut lattice = all_up(&ctx, Coupling::Ferromagnetic);
    let mut engine = MetropolisEngine::new();
    let p = engine.propose_at(&ctx, &lattice, 1, 0);
    let probability = 0.25f64;
    let random = 0.25f64;
    let outcome = engine.resolve(&mut lattice, &p, probability >= random);
    assert_eq!(outcome, Outcome::Accepted);
    assert_eq!(lattice.spin(1, 0), false);
    assert_eq!(lattice.hamiltonian(), -6);
}

#[test]
fn rejected_trial_changes_nothing() {
    let ctx = torus(3);
    let mut lattice = all_up(&ctx, Coupling::Ferromagnetic);
    let mut engine = MetropolisEngine::new();
    let before = snapshot(&lattice);
    let p = engine.propose_at(&ctx, &lattice, 2, 1);
    assert_eq!(p.delta, 6);
    assert_eq!(engine.resolve(&mut lattice, &p, false), Outcome::Rejected);
    assert_eq!(snapshot(&lattice), before);
    assert_eq!(lattice.hamiltonian(), -27);
    assert_eq!(engine.unfavorable_attempts(), 1);
}

#[test]
fn downhill_move_is_accepted_without_a_draw() {
    let ctx = torus(3);
    let mut lattice = all_up(&ctx, Coupling::Antiferromagnetic);
    assert_eq!(lattice.hamiltonian(), 27);
    let mut engine = MetropolisEngine::new();
    let p = engine.propose_at(&ctx, &lattice, 0, 0);
    assert_eq!(p.delta, -6);
    assert!(!p.needs_draw());
    assert_eq!(engine.resolve(&mut lattice, &p, false), Outcome::Accepted);
    assert_eq!(lattice.spin(0, 0), false);
    assert_eq!(lattice.hamiltonian(), 21);
    assert_eq!(engine.unfavorable_attempts(), 0);
}

#[test]
fn counter_counts_attempts_not_flips() {
    let ctx = torus(4);
    let mut lattice = all_up(&ctx, Coupling::Ferromagnetic);
    let mut engine = MetropolisEngine::new();
    assert_eq!(engine.unfavorable_attempts(), 0);
    for n in 1..=5u64 {
        let p = engine.propose_at(&ctx, &lattice, 1, 2);
        assert_eq!(engine.resolve(&mut lattice, &p, false), Outcome::Rejected);
        assert_eq!(engine.unfavorable_attempts(), n);
    }
    assert_eq!(lattice.hamiltonian(), -48);
}

#[test]
fn scenario_unbounded_temperature_accepts_nearly_everything() {
    let ctx = torus(4);
    let mut source = RandomSource::build([33u8; 32]);
    let mut lattice = Lattice::initialize(&ctx, &mut source, Coupling::Ferromagnetic);
    let mut engine = MetropolisEngine::new();
    let temp = 1.0e10f64;
    let mut uphill = 0u64;
    let mut uphill_accepted = 0u64;
    for _ in 0..10_000 {
        let (p, accepted) = trial(&mut engine, &ctx, &mut lattice, &mut source, temp);
        if p.delta > 0 {
            uphill += 1;
            if accepted {
                uphill_accepted += 1;
            }
        } else {
            assert!(accepted);
        }
    }
    assert!(uphill > 1000);
    assert_eq!(engine.unfavorable_attempts(), uphill);
    assert!(uphill_accepted as f64 >= 0.999 * uphill as f64);
}

#[test]
fn scenario_without_interaction_energy_stays_zero() {
    let ctx = torus(4);
    let mut source = RandomSource::build([4u8; 32]);
    let mut lattice = Lattice::initialize(&ctx, &mut source, Coupling::NonInteracting);
    let mut engine = MetropolisEngine::new();
    assert_eq!(lattice.hamiltonian(), 0);
    for _ in 0..1000 {
        let before = snapshot(&lattice);
        let (p, accepted) = trial(&mut engine, &ctx, &mut lattice, &mut source, 0.5);
        assert_eq!(p.delta, 0);
        assert!(!p.needs_draw());
        assert!(accepted);
        assert_eq!(lattice.spin(p.x, p.y), !before[p.x][p.y]);
        assert_eq!(lattice.hamiltonian(), 0);
        assert_eq!(lattice.recompute(&ctx), 0);
    }
    assert_eq!(engine.unfavorable_attempts(), 0);
}

#[test]
fn small_temperature_only_descends() {
    let ctx = torus(5);
    let mut source = RandomSource::build([77u8; 32]);
    let mut lattice = Lattice::initialize(&ctx, &mut source, Coupling::Ferromagnetic);
    let mut engine = MetropolisEngine::new();
    let mut last = lattice.hamiltonian();
    for _ in 0..5000 {
        let (p, accepted) = trial(&mut engine, &ctx, &mut lattice, &mut source, 1.0e-3);
        assert_eq!(accepted, p.delta <= 0);
        assert!(lattice.hamiltonian() <= last);
        last = lattice.hamiltonian();
    }
}

#[test]
fn acceptance_probability_grows_with_temperature() {
    let temps = [0.1f64, 0.5, 1.0, 2.0, 10.0, 1.0e3];
    for delta in [2i64, 4, 6] {
        for pair in temps.windows(2) {
            let low = (-(delta as f64) / pair[0]).exp();
            let high = (-(delta as f64) / pair[1]).exp();
            assert!(low < high);
            assert!(0.0 < low && high < 1.0);
        }
    }
}

#[test]
fn same_seed_gives_the_same_run() {
    let ctx = torus(6);
    let mut runs = Vec::new();
    for _ in 0..2 {
        let mut source = RandomSource::build([13u8; 32]);
        let mut lattice = Lattice::initialize(&ctx, &mut source, Coupling::Ferromagnetic);
        let mut engine = MetropolisEngine::new();
        let mut history = Vec::new();
        for _ in 0..3000 {
            let (p, accepted) = trial(&mut engine, &ctx, &mut lattice, &mut source, 2.0);
            history.push((p.x, p.y, p.delta, accepted));
        }
        runs.push((history, snapshot(&lattice), lattice.hamiltonian(), engine.unfavorable_attempts()));
    }
    assert_eq!(runs[0], runs[1]);
}

#[test]
fn cached_energy_follows_the_booked_changes() {
    let ctx = torus(5);
    let mut source = RandomSource::build([99u8; 32]);
    let mut lattice = Lattice::initialize(&ctx, &mut source, Coupling::Antiferromagnetic);
    let mut engine = MetropolisEngine::new();
    let mut booked = lattice.hamiltonian();
    for _ in 0..2000 {
        let (p, accepted) = trial(&mut engine, &ctx, &mut lattice, &mut source, 1.5);
        if accepted {
            booked += p.delta as i128;
        }
        assert_eq!(lattice.hamiltonian(), booked);
    }
}

#[test]
fn recomputed_energy_moves_by_delta_and_neighbor_share() {
    // All up, ferromagnetic, side two: the trial books 6, while the cells
    // left, right and above of the site lose 6 more between them.
    let ctx = torus(2);
    let mut lattice = all_up(&ctx, Coupling::Ferromagnetic);
    let mut engine = MetropolisEngine::new();
    let p = engine.propose_at(&ctx, &lattice, 0, 0);
    assert_eq!(engine.resolve(&mut lattice, &p, true), Outcome::Accepted);
    assert_eq!(lattice.hamiltonian(), -6);
    assert_eq!(lattice.recompute(&ctx), 0);

    // Side three, one accepted flip in the middle.
    let ctx = torus(3);
    let mut lattice = all_up(&ctx, Coupling::Ferromagnetic);
    let p = engine.propose_at(&ctx, &lattice, 1, 1);
    assert_eq!(engine.resolve(&mut lattice, &p, true), Outcome::Accepted);
    assert_eq!(lattice.hamiltonian(), -27 + 6);
    assert_eq!(lattice.recompute(&ctx), -27 + 6 + 6);
}

#[test]
fn flipping_back_restores_both_energies() {
    let ctx = torus(4);
    let mut lattice = all_up(&ctx, Coupling::Ferromagnetic);
    let mut engine = MetropolisEngine::new();
    let p = engine.propose_at(&ctx, &lattice, 3, 3);
    assert_eq!(engine.resolve(&mut lattice, &p, true), Outcome::Accepted);
    let q = engine.propose_at(&ctx, &lattice, 3, 3);
    assert_eq!(q.delta, -6);
    assert_eq!(engine.resolve(&mut lattice, &q, false), Outcome::Accepted);
    assert_eq!(lattice.hamiltonian(), -48);
    assert_eq!(lattice.recompute(&ctx), -48);
}

#[test]
fn single_cell_trial_books_six() {
    let ctx = torus(1);
    let mut lattice = all_up(&ctx, Coupling::Ferromagnetic);
    let mut engine = MetropolisEngine::new();
    let mut source = RandomSource::build([6u8; 32]);
    let p = engine.propose(&ctx, &lattice, &mut source);
    assert_eq!(p, Proposal { x: 0, y: 0, delta: 6 });
    assert_eq!(engine.resolve(&mut lattice, &p, true), Outcome::Accepted);
    assert_eq!(lattice.hamiltonian(), 3);
    assert_eq!(lattice.recompute(&ctx), -3);
}
