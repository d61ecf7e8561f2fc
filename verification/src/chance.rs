//! The one source of randomness.

use vstd::prelude::*;

verus! {

/// One free-running random 32-bit number: a call of `rand::random::<u32>()`,
/// which reads the thread's generator. Nothing is claimed of the value, and two
/// calls may differ; everything computed from it is verified for every value.
/// The call fails only where the operating system cannot seed the generator.
#[verifier::external_body]
pub(crate) fn draw() -> (value: u32) {
    rand::random::<u32>()
}

} // verus!
