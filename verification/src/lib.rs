//! Ring VRF over the Bandersnatch curve.
//!
//! A fixed-size anonymous set of public keys (the ring) lets any member
//! produce, for an input, a deterministic pseudorandom output together with a
//! zero-knowledge proof that some ring member produced it, without revealing
//! which one. Verifiers check proofs against a compact commitment to the
//! ring instead of the full key list.

use vstd::prelude::*;

pub mod backend;
pub mod laws;
pub mod params;
pub mod protocol;
pub mod ring;

pub use params::RingParams;
pub use protocol::{
    new_ad_hoc_commitment, new_public_key_from_secret, new_ring_commitment, new_secret_from_seed,
    ring_vrf_sign, ring_vrf_verify,
};
pub use ring::{build_ring, Policy};

verus! {

/// Byte length of a serialized ring commitment.
pub const RING_COMMITMENT_SIZE: usize = 144;

/// Byte length of a compressed public key.
pub const PUBKEY_SIZE: usize = 32;

/// Byte length of a serialized secret key scalar.
pub const SECRET_SIZE: usize = 32;

/// Byte length of a serialized ring VRF signature (output point plus proof).
pub const RING_VRF_SIGNATURE_SIZE: usize = 784;

/// Byte length of a VRF output hash.
pub const OUTPUT_HASH_SIZE: usize = 32;

/// Largest ring size parameters can be requested for: keeps the proof
/// system's domain-size arithmetic far from machine limits.
pub const MAX_RING_SIZE: usize = 0x10000000;

/// How an operation failed.
#[derive(Clone, Copy, Debug, PartialEq, Eq, Structural)]
pub enum Error {
    /// An argument had the wrong length, or an index was out of range;
    /// detected before any cryptographic work.
    InvalidInput,
    /// A byte encoding did not decode to the expected object, or the input
    /// bytes could not be mapped to a curve point.
    DecodeFailure,
    /// The encodings decoded but the proof relation does not hold.
    VerifyFailure,
}

/// Ring size of the current deployment: the host protocol's validator-set
/// capacity.
pub fn ring_size() -> (n: usize)
    ensures
        n == 1023,
{
    1023
}

} // verus!
