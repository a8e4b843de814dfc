//! The one source of randomness, behind a trusted specification, and
//! the instruction that consumes it.

use vstd::prelude::*;
use crate::state::ChipContext;
use crate::ops::spec_rnd;

verus! {

/// Relies on rand::random: draws a byte from the thread-local
/// generator. Nothing can be promised of a random value, so no clause
/// constrains the result.
#[verifier::external_body]
fn random_byte() -> u8 {
    rand::random::<u8>()
}

/// `Cxkk`: draw a random byte and store it in `Vx` masked with `kk`.
/// Which byte comes back is the generator's affair; `spec_rnd` pins
/// everything else down for whatever byte it was.
pub fn rnd(chip: &mut ChipContext, x: u8, kk: u8)
    requires
        old(chip)@.wf(),
        x < 16,
    ensures
        final(chip)@.wf(),
        exists|rb: u8| final(chip)@ == spec_rnd(old(chip)@, x, kk, rb),
{
    let rb: u8 = random_byte();
    crate::ops::rnd_with(chip, x, kk, rb);
}

} // verus!
