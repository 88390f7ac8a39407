//! The source of random bytes: the standard generator of the `rand` crate.
//!
//! Nothing in this module is proved. Each function states what is taken on
//! trust about the call it makes.

use rand::rngs::OsRng;
use rand::rngs::StdRng;
use rand::Rng;
use rand::SeedableRng;
use vstd::prelude::*;

verus! {

/// `rand::rngs::StdRng`, carried as an opaque value.
#[verifier::external_type_specification]
#[verifier::external_body]
pub struct ExStdRng(StdRng);

/// Calls `SeedableRng::from_rng` for `StdRng` on `rand::rngs::OsRng`, which
/// seeds a fresh generator from the operating system's entropy source, and
/// gives `None` where that source reports an error.
///
/// Nothing is claimed of the generator: two calls give generators with
/// unrelated output.
#[verifier::external_body]
pub(crate) fn system_seeded_generator() -> (generator: Option<StdRng>) {
    StdRng::from_rng(OsRng).ok()
}

/// Calls `Rng::fill` on the first `len` bytes of `buffer`, which overwrites
/// them with the generator's next output.
///
/// Claimed: the bytes from `len` on are left as they were. Nothing is claimed
/// of the bytes written, nor of the generator afterwards.
#[verifier::external_body]
pub(crate) fn fill_prefix(generator: &mut StdRng, buffer: &mut [u8; 1024], len: usize)
    requires
        len <= 1024,
    ensures
        forall|i: int| len <= i < 1024 ==> final(buffer)@[i] == old(buffer)@[i],
{
    generator.fill(&mut buffer[..len]);
}

} // verus!
