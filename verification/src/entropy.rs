//! The process's source of randomness: the thread-local generator of the
//! `rand` crate, seeded by the operating system. Nothing can be promised of
//! what it returns, so the functions here carry no postcondition: their
//! callers are verified for every value that may come back.

use vstd::prelude::*;

verus! {

/// Calls `rand::RngCore::next_u32` on `rand::thread_rng()`.
///
/// Trusted only to return: any 32-bit word may come back.
#[verifier::external_body]
pub(crate) fn next_u32() -> (word: u32) {
    rand::RngCore::next_u32(&mut rand::thread_rng())
}

/// Calls `rand::random::<[u8; 16]>()`.
///
/// Trusted only to return: any sixteen bytes may come back.
#[verifier::external_body]
pub(crate) fn random_block() -> (block: [u8; 16]) {
    rand::random::<[u8; 16]>()
}

} // verus!
