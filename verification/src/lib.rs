//! Metropolis Monte Carlo simulation of binary spins on a periodic square grid.
//!
//! The crate is organised around four components:
//!
//! * [`topology::AdjacencyContext`]: the nearest-neighbour table of an
//!   `L x L` torus;
//! * [`random::RandomSource`]: a seeded generator of sites and spins;
//! * [`lattice::Lattice`]: the spin grid together with its cached energy;
//! * [`engine::MetropolisEngine`]: the single-spin-flip trial, split into a
//!   proposal and its resolution.
//!
//! Energies are integers: every pair of neighbouring spins contributes `+1`
//! or `-1` (or `0` without interaction), so nothing is lost by avoiding
//! real-valued arithmetic.
pub mod error;
pub mod topology;
pub mod random;
pub mod sums;
pub mod lattice;
pub mod engine;
pub mod laws;
