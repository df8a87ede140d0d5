//! The random number generator of the fuzzing state.

use vstd::prelude::*;
use libafl_bolts::rands::Rand;

verus! {

/// The generator `libafl_bolts::rands::StdRand`, carried through as an opaque value.
#[verifier::external_type_specification]
#[verifier::external_body]
pub struct ExStdRand(libafl_bolts::rands::StdRand);

/// A generator started from `seed`, made by `StdRand::with_seed`.
/// Nothing is claimed of the generator.
#[verifier::external_body]
pub(crate) fn rand_with_seed(seed: u64) -> libafl_bolts::rands::StdRand {
    libafl_bolts::rands::StdRand::with_seed(seed)
}

/// One draw of `Rand::below`: the outside function scales the generator's next 64 bits
/// into the range from 0 up to, but not including, `upper_bound_excl`. Which number of
/// that range comes back, and what the generator is afterwards, is left open.
#[verifier::external_body]
pub(crate) fn rand_below(rand: &mut libafl_bolts::rands::StdRand, upper_bound_excl: usize) -> (r: usize)
    requires
        upper_bound_excl > 0,
    ensures
        r < upper_bound_excl,
{
    rand.below(core::num::NonZeroUsize::new(upper_bound_excl).unwrap())
}

} // verus!
