//! The boundary operations: key derivation, ring commitments, signing and
//! verification, each validated eagerly and stated exactly over the names of
//! the underlying primitives.

use vstd::prelude::*;
use crate::backend;
use crate::backend::{
    commitment_decodes, commitment_of, hash_of_output, input_point_exists, output_of,
    public_of_secret, ring_verify_ok, secret_decodes, secret_of_seed, sig_decodes, views,
};
use crate::params::RingParams;
use crate::ring::{build_ring, pad_ring, strict_ok, well_sized, Policy};
use crate::Error;

verus! {

/// Derives a serialized secret key from a 32-byte seed, deterministically.
/// The seed must be exactly 32 bytes: any other length is rejected, a
/// narrower domain than earlier derivations that hashed seeds of any length.
pub fn new_secret_from_seed(seed: &[u8]) -> (r: Result<Vec<u8>, Error>)
    ensures
        r.is_ok() <==> seed@.len() == 32,
        r matches Ok(s) ==> s@ == secret_of_seed(seed@) && s@.len() == 32 && secret_decodes(s@),
        r matches Err(e) ==> e == Error::InvalidInput,
{
    if seed.len() != 32 {
        return Err(Error::InvalidInput);
    }
    Ok(backend::secret_from_seed_raw(seed))
}

/// Derives the serialized public key of a serialized secret key.
pub fn new_public_key_from_secret(secret: &[u8]) -> (r: Result<Vec<u8>, Error>)
    ensures
        r.is_ok() <==> secret@.len() == 32 && secret_decodes(secret@),
        r matches Ok(p) ==> p@ == public_of_secret(secret@) && p@.len() == 32 && crate::backend::key_decodes(p@),
        r matches Err(e) ==> e == (if secret@.len() != 32 {
            Error::InvalidInput
        } else {
            Error::DecodeFailure
        }),
{
    if secret.len() != 32 {
        return Err(Error::InvalidInput);
    }
    if !backend::secret_decodes_check(secret) {
        return Err(Error::DecodeFailure);
    }
    Ok(backend::public_from_secret_raw(secret))
}

/// Builds the canonical commitment for a full ring: entries that fail to
/// decode are replaced by the fixed padding point, so a validator set with
/// fewer than ring-size usable keys still commits.
pub fn new_ring_commitment(params: &RingParams, ring: &Vec<Vec<u8>>) -> (r: Result<Vec<u8>, Error>)
    requires
        params.wf(),
    ensures
        r.is_ok() <==> ring@.len() == params.size() && well_sized(views(ring@)),
        r matches Ok(c) ==> c@ == commitment_of(params.srs(), params.size(), pad_ring(views(ring@)))
            && c@.len() == 144 && commitment_decodes(c@),
        r matches Err(e) ==> e == Error::InvalidInput,
{
    if ring.len() != params.ring_size() {
        return Err(Error::InvalidInput);
    }
    let normalized = match build_ring(ring, Policy::Pad) {
        Ok(v) => v,
        Err(e) => {
            return Err(e);
        },
    };
    proof {
        params.wf_bound();
    }
    Ok(backend::commit_raw(params, &normalized))
}

/// Builds a commitment over an explicit, variable-length key list under the
/// strict policy: any entry that fails to decode aborts the construction.
pub fn new_ad_hoc_commitment(params: &RingParams, keys: &Vec<Vec<u8>>) -> (r: Result<
    Vec<u8>,
    Error,
>)
    requires
        params.wf(),
    ensures
        r.is_ok() <==> keys@.len() <= params.max_ring() && well_sized(views(keys@)) && strict_ok(
            views(keys@),
        ),
        r matches Ok(c) ==> c@ == commitment_of(params.srs(), params.size(), views(keys@))
            && c@.len() == 144 && commitment_decodes(c@),
        r matches Err(e) ==> e == (if keys@.len() <= params.max_ring() && well_sized(views(keys@)) {
            Error::DecodeFailure
        } else {
            Error::InvalidInput
        }),
{
    if keys.len() > params.max_ring_size() {
        return Err(Error::InvalidInput);
    }
    let ring = match build_ring(keys, Policy::Strict) {
        Ok(v) => v,
        Err(e) => {
            return Err(e);
        },
    };
    proof {
        assert(views(ring@) =~= views(keys@));
    }
    Ok(backend::commit_raw(params, &ring))
}

/// Signs: decodes the ring under the padding policy, derives the VRF output
/// from the secret and the input data alone, and appends the ring membership
/// proof, which binds the secret, the claimed ring position and the
/// auxiliary bytes. Proof generation is randomized, so the proof bytes are
/// not pinned; what is stated instead is completeness: when the decoded
/// ring's entry at the prover's index is the secret's public key, the
/// signature verifies against the ring's own commitment.
pub fn ring_vrf_sign(
    params: &RingParams,
    ring: &Vec<Vec<u8>>,
    prover_idx: usize,
    secret: &[u8],
    input_data: &[u8],
    aux_data: &[u8],
) -> (r: Result<Vec<u8>, Error>)
    requires
        params.wf(),
    ensures
        r.is_ok() <==> ring@.len() == params.size() && well_sized(views(ring@)) && prover_idx
            < params.size() && secret@.len() == 32 && secret_decodes(secret@)
            && input_point_exists(input_data@),
        r matches Ok(sig) ==> sig@.len() == 784 && sig@.subrange(0, 32) == output_of(
            secret@,
            input_data@,
        ) && sig_decodes(sig@) && (pad_ring(views(ring@))[prover_idx as int] == public_of_secret(
            secret@,
        ) ==> ring_verify_ok(
            params.srs(),
            params.size(),
            commitment_of(params.srs(), params.size(), pad_ring(views(ring@))),
            sig@,
            input_data@,
            aux_data@,
        )),
        r matches Err(e) ==> e == (if ring@.len() == params.size() && well_sized(views(ring@))
            && prover_idx < params.size() && secret@.len() == 32 {
            Error::DecodeFailure
        } else {
            Error::InvalidInput
        }),
{
    if ring.len() != params.ring_size() {
        return Err(Error::InvalidInput);
    }
    let normalized = match build_ring(ring, Policy::Pad) {
        Ok(v) => v,
        Err(e) => {
            return Err(e);
        },
    };
    if prover_idx >= params.ring_size() {
        return Err(Error::InvalidInput);
    }
    if secret.len() != 32 {
        return Err(Error::InvalidInput);
    }
    if !backend::secret_decodes_check(secret) {
        return Err(Error::DecodeFailure);
    }
    if !backend::input_point_check(input_data) {
        return Err(Error::DecodeFailure);
    }
    proof {
        params.wf_bound();
    }
    let mut sig = backend::vrf_output_raw(secret, input_data);
    let mut proof = backend::prove_raw(params, &normalized, prover_idx, secret, input_data, aux_data);
    let ghost output_part = sig@;
    let ghost proof_part = proof@;
    sig.append(&mut proof);
    proof {
        assert(sig@.subrange(0, 32) =~= output_part);
        assert(sig@ == output_of(secret@, input_data@) + proof_part);
        assert(views(normalized@) =~= pad_ring(views(ring@)));
    }
    Ok(sig)
}

/// Verifies: decodes the commitment and signature, recomputes the input
/// point with the identical mapping used when signing, checks the combined
/// relation (membership, output consistency, and the transcript binding of
/// the auxiliary bytes), and on success returns the digest of the verified
/// output point.
pub fn ring_vrf_verify(
    params: &RingParams,
    input_data: &[u8],
    aux_data: &[u8],
    commitment: &[u8],
    signature: &[u8],
) -> (r: Result<Vec<u8>, Error>)
    requires
        params.wf(),
    ensures
        r.is_ok() <==> commitment@.len() == 144 && signature@.len() == 784 && commitment_decodes(
            commitment@,
        ) && sig_decodes(signature@) && input_point_exists(input_data@) && ring_verify_ok(
            params.srs(),
            params.size(),
            commitment@,
            signature@,
            input_data@,
            aux_data@,
        ),
        r matches Ok(h) ==> h@ == hash_of_output(signature@.subrange(0, 32)) && h@.len() == 32,
        r matches Err(e) ==> e == (if commitment@.len() != 144 || signature@.len() != 784 {
            Error::InvalidInput
        } else if !(commitment_decodes(commitment@) && sig_decodes(signature@)
            && input_point_exists(input_data@)) {
            Error::DecodeFailure
        } else {
            Error::VerifyFailure
        }),
{
    if commitment.len() != 144 {
        return Err(Error::InvalidInput);
    }
    if signature.len() != 784 {
        return Err(Error::InvalidInput);
    }
    if !backend::commitment_decodes_check(commitment) {
        return Err(Error::DecodeFailure);
    }
    if !backend::sig_decodes_check(signature) {
        return Err(Error::DecodeFailure);
    }
    if !backend::input_point_check(input_data) {
        return Err(Error::DecodeFailure);
    }
    match backend::verify_raw(params, commitment, signature, input_data, aux_data) {
        Some(h) => Ok(h),
        None => Err(Error::VerifyFailure),
    }
}

} // verus!
