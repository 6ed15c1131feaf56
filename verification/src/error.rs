use vstd::prelude::*;

verus! {

/// Why a simulation could not be set up.
///
/// Once the components are built, no operation of the simulation fails.
#[derive(Clone, Copy, Debug, PartialEq, Eq, Structural)]
pub enum SimError {
    /// The grid side length is not positive (or, for drivers that check it,
    /// the temperature is not positive).
    InvalidConfiguration,
    /// The operating system could not supply a seed.
    EntropyUnavailable,
}

} // verus!
