//! The source of random bytes.

use vstd::prelude::*;

verus! {

/// Draws one byte from `rand::random`, which takes the next value of the
/// thread-local generator of the `rand` crate.
///
/// Trusted, not proved. Nothing is promised of the byte: it may be any of the
/// 256, and whoever uses it is proved for every one of them. The generator
/// seeds itself from the operating system on first use and panics if that
/// fails; there is no argument by which a caller could rule this out.
#[verifier::external_body]
pub(crate) fn random_byte() -> u8 {
    rand::random::<u8>()
}

} // verus!
