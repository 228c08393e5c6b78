use ark_vrf::reexports::ark_ec::pairing::Pairing;
use ark_vrf::reexports::ark_ec::{CurveGroup, PrimeGroup};
use ark_vrf::reexports::ark_serialize::CanonicalSerialize;
use bandersnatch_ring_vrf::{
    new_public_key_from_secret, new_ring_commitment, new_secret_from_seed, ring_size,
    ring_vrf_sign, ring_vrf_verify, RingParams,
};

type Pairs = <ark_vrf::suites::bandersnatch::BandersnatchSha512Ell2 as ark_vrf::ring::RingSuite>::Pairing;

/// A small insecure SRS: powers of tau = 2, computed by doubling.
fn srs_bytes(ring_size: usize) -> Vec<u8> {
    let n1 = 3 * (ring_size + 300).next_power_of_two() + 1;
    let mut g1_powers = Vec::with_capacity(n1);
    let mut acc = <Pairs as Pairing>::G1::generator();
    for _ in 0..n1 {
        g1_powers.push(acc);
        acc = acc + acc;
    }
    let powers_in_g1 = <Pairs as Pairing>::G1::normalize_batch(&g1_powers);
    let g2 = <Pairs as Pairing>::G2::generator();
    let powers_in_g2 = <Pairs as Pairing>::G2::normalize_batch(&[g2, g2 + g2]);
    let urs = ark_vrf::suites::bandersnatch::PcsParams {
        powers_in_g1,
        powers_in_g2,
    };
    let mut out = Vec::new();
    urs.serialize_uncompressed(&mut out).unwrap();
    out
}

#[test]
fn full_size_ring_with_zero_seed_signer_at_position_five() {
    let n = ring_size();
    assert_eq!(n, 1023);
    let params = RingParams::new(&srs_bytes(n), n).unwrap();
    let secret = new_secret_from_seed(&[0u8; 32]).unwrap();
    let mut ring: Vec<Vec<u8>> = (0..n)
        .map(|i| {
            let mut seed = [1u8; 32];
            seed[0] = (i & 0xff) as u8;
            seed[1] = (i >> 8) as u8;
            let s = new_secret_from_seed(&seed).unwrap();
            new_public_key_from_secret(&s).unwrap()
        })
        .collect();
    ring[5] = new_public_key_from_secret(&secret).unwrap();
    let commitment = new_ring_commitment(&params, &ring).unwrap();
    let sig = ring_vrf_sign(&params, &ring, 5, &secret, b"arbitrary input", b"test").unwrap();
    let hash = ring_vrf_verify(&params, b"arbitrary input", b"test", &commitment, &sig).unwrap();
    assert_eq!(hash.len(), 32);
    assert!(ring_vrf_verify(&params, b"arbitrary input", b"other", &commitment, &sig).is_err());
}
