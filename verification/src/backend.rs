//! Trusted boundary to the `ark_vrf` Bandersnatch suite.
//!
//! Every function here is an `external_body` wrapper around one step of the
//! ring VRF pipeline. The uninterpreted spec functions name the results of
//! the deterministic primitives, which are functions of their byte-level
//! arguments; the verified modules compose these names into exact contracts.
//! Ring proof generation alone is randomized, and its wrapper states only
//! what holds of every outcome.

use vstd::prelude::*;
use ark_vrf::reexports::ark_serialize::{CanonicalDeserialize, CanonicalSerialize};
use ark_vrf::ring::{Prover, RingCommitment, Verifier};
use ark_vrf::suites::bandersnatch::{
    AffinePoint, BandersnatchSha512Ell2, Input, Output, PcsParams, Public, RingProof,
    RingProofParams, Secret,
};
use ark_vrf::VrfIo;
use crate::params::RingParams;
use crate::ring::padding_key_spec;

verus! {

/// Opaque handle on the suite's ring proof parameters (SRS plus PIOP
/// parameters). Verus sees nothing of the value; the wrappers below state
/// its meaning through the SRS bytes and ring size recorded beside it in
/// `RingParams`.
#[verifier::external_body]
pub struct ParamsHandle {
    inner: RingProofParams,
}

/// Whether 32 bytes are the canonical compressed encoding of a valid
/// public-key point of the prime-order subgroup.
pub uninterp spec fn key_decodes(key: Seq<u8>) -> bool;

/// Whether bytes canonically encode a valid secret-key scalar.
pub uninterp spec fn secret_decodes(secret: Seq<u8>) -> bool;

/// Whether 144 bytes decode to a ring commitment.
pub uninterp spec fn commitment_decodes(commitment: Seq<u8>) -> bool;

/// Whether 784 bytes decode to an output point followed by a ring proof.
pub uninterp spec fn sig_decodes(signature: Seq<u8>) -> bool;

/// Whether the fixed hash-to-curve mapping yields a point for this data.
pub uninterp spec fn input_point_exists(input_data: Seq<u8>) -> bool;

/// Whether these bytes deserialize to an SRS with enough powers for rings of
/// the given size.
pub uninterp spec fn srs_accepts(srs: Seq<u8>, ring_size: nat) -> bool;

/// The serialized secret scalar derived from a 32-byte seed.
pub uninterp spec fn secret_of_seed(seed: Seq<u8>) -> Seq<u8>;

/// The serialized public key of a serialized secret key.
pub uninterp spec fn public_of_secret(secret: Seq<u8>) -> Seq<u8>;

/// The serialized VRF output point: the secret scalar times the input point
/// obtained from `input_data` by hash-to-curve. Depends on the secret and the
/// input data alone, never on ring or auxiliary bytes.
pub uninterp spec fn output_of(secret: Seq<u8>, input_data: Seq<u8>) -> Seq<u8>;

/// The 32-byte digest of a serialized VRF output point.
pub uninterp spec fn hash_of_output(output: Seq<u8>) -> Seq<u8>;

/// The 144-byte commitment binding the ordered ring of key encodings under
/// the given SRS and ring size.
pub uninterp spec fn commitment_of(srs: Seq<u8>, ring_size: nat, ring: Seq<Seq<u8>>) -> Seq<u8>;

/// Whether the ring proof verification relation accepts the signature for
/// this commitment, input data and auxiliary bytes.
pub uninterp spec fn ring_verify_ok(
    srs: Seq<u8>,
    ring_size: nat,
    commitment: Seq<u8>,
    signature: Seq<u8>,
    input_data: Seq<u8>,
    aux_data: Seq<u8>,
) -> bool;

/// The views of a sequence of byte vectors.
pub open spec fn views(keys: Seq<Vec<u8>>) -> Seq<Seq<u8>> {
    keys.map_values(|k: Vec<u8>| k@)
}

/// Relies on `PcsParams::deserialize_uncompressed_unchecked` and
/// `RingProofParams::from_pcs_params`: construction succeeds exactly when the
/// bytes parse and hold enough powers for the requested ring size, and the
/// resulting `max_ring_size` (the PIOP keyset part size) is at least the
/// requested size, since the PIOP domain is padded up to a power of two.
/// The bound on `ring_size` keeps the domain-size arithmetic (rounding up to
/// a power of two, then tripling) far from `usize` overflow.
#[verifier::external_body]
pub(crate) fn mk_params(srs: &[u8], ring_size: usize) -> (r: Option<(ParamsHandle, usize)>)
    requires
        ring_size <= crate::MAX_RING_SIZE,
    ensures
        r.is_some() ==> srs_accepts(srs@, ring_size as nat),
        srs_accepts(srs@, ring_size as nat) ==> r.is_some(),
        r matches Some(t) ==> t.1 >= ring_size,
{
    let pcs = PcsParams::deserialize_uncompressed_unchecked(&mut &srs[..]).ok()?;
    let params = RingProofParams::from_pcs_params(ring_size, pcs).ok()?;
    let max = params.max_ring_size();
    Some((ParamsHandle { inner: params }, max))
}

/// Relies on `RingProofParams::padding_point`: a fixed public point of
/// unknown discrete log, whose canonical encoding decodes back to a valid
/// public key.
#[verifier::external_body]
pub(crate) fn padding_point_key() -> (r: Vec<u8>)
    ensures
        r@ == padding_key_spec(),
        key_decodes(r@),
{
    let point = RingProofParams::padding_point();
    let mut out = Vec::new();
    point.serialize_compressed(&mut out).unwrap();
    out
}

/// Relies on `Public::deserialize_compressed`: succeeds exactly on canonical
/// encodings of valid subgroup points.
#[verifier::external_body]
pub(crate) fn key_decodes_check(key: &[u8]) -> (r: bool)
    ensures
        r == key_decodes(key@),
{
    Public::deserialize_compressed(key).is_ok()
}

/// Relies on `Secret::deserialize_compressed`: succeeds exactly on canonical
/// scalar encodings.
#[verifier::external_body]
pub(crate) fn secret_decodes_check(secret: &[u8]) -> (r: bool)
    ensures
        r == secret_decodes(secret@),
{
    Secret::deserialize_compressed(secret).is_ok()
}

/// Relies on `RingCommitment::deserialize_compressed`.
#[verifier::external_body]
pub(crate) fn commitment_decodes_check(commitment: &[u8]) -> (r: bool)
    ensures
        r == commitment_decodes(commitment@),
{
    RingCommitment::<BandersnatchSha512Ell2>::deserialize_compressed(commitment).is_ok()
}

/// Relies on `Output::deserialize_compressed` and
/// `RingProof::deserialize_compressed`, applied to the two fixed-size halves
/// of the signature, exactly as the serialized (output, proof) pair is laid
/// out.
#[verifier::external_body]
pub(crate) fn sig_decodes_check(signature: &[u8]) -> (r: bool)
    requires
        signature@.len() == 784,
    ensures
        r == sig_decodes(signature@),
{
    Output::deserialize_compressed(&signature[..32]).is_ok()
        && RingProof::deserialize_compressed(&signature[32..]).is_ok()
}

/// Relies on `Input::new`: the fixed Elligator2 hash-to-curve mapping.
#[verifier::external_body]
pub(crate) fn input_point_check(input_data: &[u8]) -> (r: bool)
    ensures
        r == input_point_exists(input_data@),
{
    Input::new(input_data).is_some()
}

/// Relies on `Secret::from_seed`: a deterministic derivation of a nonzero
/// scalar from a 32-byte seed, serialized to 32 canonical bytes.
#[verifier::external_body]
pub(crate) fn secret_from_seed_raw(seed: &[u8]) -> (r: Vec<u8>)
    requires
        seed@.len() == 32,
    ensures
        r@ == secret_of_seed(seed@),
        r@.len() == 32,
        secret_decodes(r@),
{
    let mut seed_arr = [0u8; 32];
    seed_arr.copy_from_slice(seed);
    let secret = Secret::from_seed(seed_arr);
    let mut out = Vec::new();
    secret.serialize_compressed(&mut out).unwrap();
    out
}

/// Relies on `Secret::public`: the generator times the secret scalar,
/// serialized to 32 compressed bytes, which decode back to the same valid
/// subgroup point (canonical round trip).
#[verifier::external_body]
pub(crate) fn public_from_secret_raw(secret: &[u8]) -> (r: Vec<u8>)
    requires
        secret_decodes(secret@),
    ensures
        r@ == public_of_secret(secret@),
        r@.len() == 32,
        key_decodes(r@),
{
    let secret = Secret::deserialize_compressed(secret).unwrap();
    let mut out = Vec::new();
    secret.public().serialize_compressed(&mut out).unwrap();
    out
}

/// Relies on `Input::new`, `Secret::output` and the output's canonical
/// serialization: the VRF output point is the secret scalar times the input
/// point, a function of the secret and the input data alone.
#[verifier::external_body]
pub(crate) fn vrf_output_raw(secret: &[u8], input_data: &[u8]) -> (r: Vec<u8>)
    requires
        secret_decodes(secret@),
        input_point_exists(input_data@),
    ensures
        r@ == output_of(secret@, input_data@),
        r@.len() == 32,
{
    let secret = Secret::deserialize_compressed(secret).unwrap();
    let input = Input::new(input_data).unwrap();
    let output = secret.output(input);
    let mut out = Vec::new();
    output.serialize_compressed(&mut out).unwrap();
    out
}

/// Relies on `RingProofParams::verifier_key` and
/// `RingVerifierKey::commitment`: an order-sensitive aggregate of the whole
/// ring, serialized to 144 compressed bytes (three fixed-size curve points),
/// which decode back to the same commitment (canonical round trip).
/// `verifier_key` succeeds since the ring is within the keyset capacity.
#[verifier::external_body]
pub(crate) fn commit_raw(params: &RingParams, ring: &Vec<Vec<u8>>) -> (r: Vec<u8>)
    requires
        params.wf(),
        ring@.len() <= params.max_ring(),
        crate::ring::strict_ok(views(ring@)),
    ensures
        r@ == commitment_of(params.srs(), params.size(), views(ring@)),
        r@.len() == 144,
        commitment_decodes(r@),
{
    let points: Vec<AffinePoint> = ring
        .iter()
        .map(|k| Public::deserialize_compressed(&k[..]).unwrap().0)
        .collect();
    let verifier_key = params.handle().inner.verifier_key(&points).unwrap();
    let mut out = Vec::new();
    verifier_key.commitment().serialize_compressed(&mut out).unwrap();
    out
}

/// Relies on `RingProofParams::prover_key`, `RingProofParams::prover` and
/// `Secret::prove`. Ring proof generation is randomized (the zero-knowledge
/// rows of the witness columns are filled from the operating system's
/// randomness), so two calls on the same arguments may return different
/// bytes: the contract states only what holds of every outcome. The proof
/// serializes to 752 fixed-size bytes, the (output, proof) pair re-decodes,
/// and, by the completeness of the schemes, when the ring entry at the
/// prover's index is the public key of the secret, the verification relation
/// accepts the resulting signature against the ring's own commitment.
#[verifier::external_body]
pub(crate) fn prove_raw(
    params: &RingParams,
    ring: &Vec<Vec<u8>>,
    prover_idx: usize,
    secret: &[u8],
    input_data: &[u8],
    aux_data: &[u8],
) -> (r: Vec<u8>)
    requires
        params.wf(),
        ring@.len() <= params.max_ring(),
        crate::ring::strict_ok(views(ring@)),
        prover_idx < ring@.len(),
        secret_decodes(secret@),
        input_point_exists(input_data@),
    ensures
        r@.len() == 752,
        sig_decodes(output_of(secret@, input_data@) + r@),
        views(ring@)[prover_idx as int] == public_of_secret(secret@) ==> ring_verify_ok(
            params.srs(),
            params.size(),
            commitment_of(params.srs(), params.size(), views(ring@)),
            output_of(secret@, input_data@) + r@,
            input_data@,
            aux_data@,
        ),
{
    let points: Vec<AffinePoint> = ring
        .iter()
        .map(|k| Public::deserialize_compressed(&k[..]).unwrap().0)
        .collect();
    let secret = Secret::deserialize_compressed(secret).unwrap();
    let input = Input::new(input_data).unwrap();
    let io = VrfIo { input, output: secret.output(input) };
    let prover_key = params.handle().inner.prover_key(&points).unwrap();
    let prover = params.handle().inner.prover(prover_key, prover_idx);
    let proof = secret.prove(io, aux_data, &prover);
    let mut out = Vec::new();
    proof.serialize_compressed(&mut out).unwrap();
    out
}

/// Relies on the commitment, output and proof deserializers,
/// `RingProofParams::verifier_key_from_commitment`, `Public::verify` and
/// `Output::hash`: verification is a deterministic relation over the
/// commitment, signature, input data and auxiliary bytes, and on acceptance
/// the digest of the signature's output point is returned.
#[verifier::external_body]
pub(crate) fn verify_raw(
    params: &RingParams,
    commitment: &[u8],
    signature: &[u8],
    input_data: &[u8],
    aux_data: &[u8],
) -> (r: Option<Vec<u8>>)
    requires
        params.wf(),
        commitment@.len() == 144,
        signature@.len() == 784,
    ensures
        r.is_some() ==> commitment_decodes(commitment@) && sig_decodes(signature@)
            && input_point_exists(input_data@) && ring_verify_ok(
            params.srs(),
            params.size(),
            commitment@,
            signature@,
            input_data@,
            aux_data@,
        ),
        commitment_decodes(commitment@) && sig_decodes(signature@) && input_point_exists(
            input_data@,
        ) && ring_verify_ok(
            params.srs(),
            params.size(),
            commitment@,
            signature@,
            input_data@,
            aux_data@,
        ) ==> r.is_some(),
        r matches Some(h) ==> h@ == hash_of_output(signature@.subrange(0, 32)) && h@.len() == 32,
{
    let commitment = RingCommitment::<BandersnatchSha512Ell2>::deserialize_compressed(
        commitment,
    ).ok()?;
    let output = Output::deserialize_compressed(&signature[..32]).ok()?;
    let proof = RingProof::deserialize_compressed(&signature[32..]).ok()?;
    let input = Input::new(input_data)?;
    let verifier_key = params.handle().inner.verifier_key_from_commitment(commitment);
    let verifier = params.handle().inner.verifier(verifier_key);
    let io = VrfIo { input, output };
    if Public::verify(io, aux_data, &proof, &verifier).is_err() {
        return None;
    }
    let hash: [u8; 32] = output.hash();
    Some(hash.to_vec())
}

} // verus!
