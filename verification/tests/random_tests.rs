use ising2d::error::SimError;
use ising2d::random::RandomSource;
use rand::rngs::StdRng;
use rand::{Rng, SeedableRng};

#[test]
fn sites_stay_on_the_grid() {
    let mut source = RandomSource::build([1u8; 32]);
    for side in 1..=9usize {
        for _ in 0..200 {
            let (x, y) = source.next_site(side);
            assert!(x < side && y < side);
        }
    }
}

#[test]
fn single_cell_grid_always_draws_the_origin() {
    let mut source = RandomSource::build([9u8; 32]);
    for _ in 0..50 {
        assert_eq!(source.next_site(1), (0, 0));
    }
}

#[test]
fn sites_cover_the_grid() {
    let side = 4;
    let mut source = RandomSource::build([5u8; 32]);
    let mut seen = vec![vec![false; side]; side];
    for _ in 0..2000 {
        let (x, y) = source.next_site(side);
        seen[x][y] = true;
    }
    for x in 0..side {
        for y in 0..side {
            assert!(seen[x][y]);
        }
    }
}

#[test]
fn same_seed_gives_the_same_draws() {
    let mut a = RandomSource::build([42u8; 32]);
    let mut b = RandomSource::build([42u8; 32]);
    for _ in 0..500 {
        assert_eq!(a.next_site(16), b.next_site(16));
        assert_eq!(a.next_spin(), b.next_spin());
        let ra: f64 = a.generator().gen();
        let rb: f64 = b.generator().gen();
        assert_eq!(ra.to_bits(), rb.to_bits());
    }
}

#[test]
fn different_seeds_give_different_draws() {
    let mut a = RandomSource::build([0u8; 32]);
    let mut b = RandomSource::build([255u8; 32]);
    let mut differ = false;
    for _ in 0..100 {
        if a.next_site(1000) != b.next_site(1000) {
            differ = true;
        }
    }
    assert!(differ);
}

#[test]
fn source_follows_the_seeded_generator() {
    let seed = [11u8; 32];
    let mut source = RandomSource::build(seed);
    let mut plain = StdRng::from_seed(seed);
    for _ in 0..100 {
        let up = source.next_spin();
        assert_eq!(up, plain.gen::<bool>());
    }
    let a: u64 = source.generator().gen();
    let b: u64 = plain.gen();
    assert_eq!(a, b);
}

#[test]
fn spins_take_both_values() {
    let mut source = RandomSource::build([2u8; 32]);
    let mut ups = 0;
    for _ in 0..1000 {
        if source.next_spin() {
            ups += 1;
        }
    }
    assert!(300 < ups && ups < 700);
}

#[test]
fn unit_draws_lie_in_the_unit_interval() {
    let mut source = RandomSource::build([8u8; 32]);
    for _ in 0..1000 {
        let r: f64 = source.generator().gen();
        assert!(0.0 <= r && r < 1.0);
    }
}

#[test]
fn entropy_seeds_a_source_or_reports_it() {
    match RandomSource::from_entropy() {
        Ok(mut source) => {
            let (x, y) = source.next_site(3);
            assert!(x < 3 && y < 3);
        }
        Err(e) => assert_eq!(e, SimError::EntropyUnavailable),
    }
}

#[test]
fn fetched_seed_starts_the_source() {
    let seed = [17u8; 32];
    let mut built = RandomSource::build(seed);
    let mut fetched = match RandomSource::from_os_seed(Ok(()), seed) {
        Ok(source) => source,
        Err(e) => panic!("a fetched seed was refused: {:?}", e),
    };
    for _ in 0..200 {
        assert_eq!(fetched.next_site(12), built.next_site(12));
        assert_eq!(fetched.next_spin(), built.next_spin());
    }
}

#[test]
fn failed_fetch_is_entropy_unavailable() {
    let failure = rand::Error::new("the entropy source cannot be read");
    let r = RandomSource::from_os_seed(Err(failure), [128u8; 32]);
    assert!(matches!(r, Err(SimError::EntropyUnavailable)));
}

#[test]
fn generator_draws_advance_the_source() {
    let seed = [23u8; 32];
    let mut through = RandomSource::build(seed);
    let mut plain = StdRng::from_seed(seed);
    for _ in 0..50 {
        let a: f64 = through.generator().gen();
        let b: f64 = plain.gen();
        assert_eq!(a.to_bits(), b.to_bits());
        assert_eq!(through.next_spin(), plain.gen::<bool>());
    }
}
