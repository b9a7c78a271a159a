//! Randomness from the operating system, through the `getrandom` crate.

use vstd::prelude::*;

verus! {

/// Draws thirty-two bytes from the operating system's random source with
/// `getrandom::getrandom`, or nothing where the source fails. Nothing is
/// claimed of the bytes: each call may give others.
#[verifier::external_body]
pub(crate) fn draw_seed() -> (drawn: Option<[u8; 32]>) {
    let mut seed = [0u8; 32];
    match getrandom::getrandom(&mut seed) {
        Ok(()) => Some(seed),
        Err(_) => None,
    }
}

} // verus!
