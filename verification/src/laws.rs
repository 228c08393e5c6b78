//! Properties that relate several boundary operations, stated over the same
//! names their contracts use.

use vstd::prelude::*;
use crate::backend::{hash_of_output, key_decodes, output_of, public_of_secret, secret_of_seed};
use crate::ring::{pad_ring, padding_key_spec, strict_ok};

verus! {

/// Key derivation is deterministic: any two secrets derived from the same
/// seed are equal, and so are the public keys derived from them.
pub proof fn lemma_key_derivation_deterministic(
    seed: Seq<u8>,
    s1: Seq<u8>,
    s2: Seq<u8>,
    p1: Seq<u8>,
    p2: Seq<u8>,
)
    requires
        s1 == secret_of_seed(seed),
        s2 == secret_of_seed(seed),
        p1 == public_of_secret(s1),
        p2 == public_of_secret(s2),
    ensures
        s1 == s2,
        p1 == p2,
{
}

/// The VRF output bound into a signature depends on the secret and the
/// input data alone: two signatures for the same secret and input carry the
/// same output point and yield the same output hash on verification,
/// whatever ring, position or auxiliary bytes they were produced with.
pub proof fn lemma_output_binds_secret_and_input_only(
    sig1: Seq<u8>,
    sig2: Seq<u8>,
    secret: Seq<u8>,
    input_data: Seq<u8>,
)
    requires
        sig1.subrange(0, 32) == output_of(secret, input_data),
        sig2.subrange(0, 32) == output_of(secret, input_data),
    ensures
        sig1.subrange(0, 32) == sig2.subrange(0, 32),
        hash_of_output(sig1.subrange(0, 32)) == hash_of_output(sig2.subrange(0, 32)),
{
}

/// Whatever a successful verification returns for a signature is the digest
/// of the output point derived from the secret and input data the signature
/// was produced with: the verified randomness is `hash(secret, input)`,
/// independent of ring contents and auxiliary bytes.
pub proof fn lemma_verified_output_is_vrf_hash(
    sig: Seq<u8>,
    h: Seq<u8>,
    secret: Seq<u8>,
    input_data: Seq<u8>,
)
    requires
        sig.subrange(0, 32) == output_of(secret, input_data),
        h == hash_of_output(sig.subrange(0, 32)),
    ensures
        h == hash_of_output(output_of(secret, input_data)),
{
}

/// The two decoding policies diverge on a ring with an entry that fails to
/// decode: the strict policy rejects the ring, while the padding policy
/// replaces exactly the failing entries by the fixed padding key and keeps
/// every other entry unchanged, in place.
pub proof fn lemma_policy_divergence(keys: Seq<Seq<u8>>, j: int)
    requires
        0 <= j < keys.len(),
        !key_decodes(keys[j]),
    ensures
        !strict_ok(keys),
        pad_ring(keys).len() == keys.len(),
        pad_ring(keys)[j] == padding_key_spec(),
        forall|i: int| 0 <= i < keys.len() && key_decodes(#[trigger] keys[i]) ==> pad_ring(
            keys,
        )[i] == keys[i],
{
}

} // verus!
