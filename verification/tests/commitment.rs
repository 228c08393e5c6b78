use ark_vrf::reexports::ark_ec::pairing::Pairing;
use ark_vrf::reexports::ark_ec::{CurveGroup, PrimeGroup};
use ark_vrf::reexports::ark_serialize::CanonicalSerialize;
use bandersnatch_ring_vrf::{
    new_ad_hoc_commitment, new_public_key_from_secret, new_ring_commitment, new_secret_from_seed,
    Error, RingParams, MAX_RING_SIZE,
};

type Pairs = <ark_vrf::suites::bandersnatch::BandersnatchSha512Ell2 as ark_vrf::ring::RingSuite>::Pairing;

/// A small insecure SRS: powers of tau = 2, computed by doubling.
fn srs_bytes(ring_size: usize) -> Vec<u8> {
    let n1 = 3 * (ring_size + 300).next_power_of_two() + 1;
    let mut g1_powers = Vec::with_capacity(n1);
    let mut acc = <Pairs as Pairing>::G1::generator();
    for _ in 0..n1 {
        g1_powers.push(acc);
        acc = acc + acc;
    }
    let powers_in_g1 = <Pairs as Pairing>::G1::normalize_batch(&g1_powers);
    let g2 = <Pairs as Pairing>::G2::generator();
    let powers_in_g2 = <Pairs as Pairing>::G2::normalize_batch(&[g2, g2 + g2]);
    let urs = ark_vrf::suites::bandersnatch::PcsParams {
        powers_in_g1,
        powers_in_g2,
    };
    let mut out = Vec::new();
    urs.serialize_uncompressed(&mut out).unwrap();
    out
}

fn some_key(tag: u8) -> Vec<u8> {
    let mut seed = [0u8; 32];
    seed[0] = tag;
    let secret = new_secret_from_seed(&seed).unwrap();
    new_public_key_from_secret(&secret).unwrap()
}

fn ring_of(n: usize) -> Vec<Vec<u8>> {
    (0..n).map(|i| some_key(i as u8 + 1)).collect()
}

#[test]
fn commitment_is_144_bytes_and_deterministic() {
    let params = RingParams::new(&srs_bytes(8), 8).unwrap();
    let ring = ring_of(8);
    let c1 = new_ring_commitment(&params, &ring).unwrap();
    let c2 = new_ring_commitment(&params, &ring).unwrap();
    assert_eq!(c1.len(), 144);
    assert_eq!(c1, c2);
}

#[test]
fn reordering_entries_changes_the_commitment() {
    let params = RingParams::new(&srs_bytes(8), 8).unwrap();
    let ring = ring_of(8);
    let mut reordered = ring.clone();
    reordered.swap(2, 5);
    let c1 = new_ring_commitment(&params, &ring).unwrap();
    let c2 = new_ring_commitment(&params, &reordered).unwrap();
    assert_ne!(c1, c2);
}

#[test]
fn wrong_ring_length_is_rejected() {
    let params = RingParams::new(&srs_bytes(8), 8).unwrap();
    let ring = ring_of(7);
    assert_eq!(new_ring_commitment(&params, &ring), Err(Error::InvalidInput));
}

#[test]
fn padding_tolerant_versus_strict_on_malformed_entries() {
    // One and the same malformed list: the canonical ring commitment pads
    // and succeeds, the ad hoc strict commitment fails.
    let params = RingParams::new(&srs_bytes(8), 8).unwrap();
    let mut ring = ring_of(8);
    ring[3] = vec![0u8; 32];
    ring[6] = vec![0xaau8; 32];
    let committed = new_ring_commitment(&params, &ring);
    assert!(committed.is_ok());
    assert_eq!(committed.unwrap().len(), 144);
    assert_eq!(new_ad_hoc_commitment(&params, &ring), Err(Error::DecodeFailure));
}

#[test]
fn ad_hoc_commitment_accepts_a_shorter_valid_list() {
    let params = RingParams::new(&srs_bytes(8), 8).unwrap();
    let keys = ring_of(5);
    let c = new_ad_hoc_commitment(&params, &keys).unwrap();
    assert_eq!(c.len(), 144);
}

#[test]
fn both_policies_agree_on_a_fully_valid_ring() {
    let params = RingParams::new(&srs_bytes(8), 8).unwrap();
    let ring = ring_of(8);
    let padded = new_ring_commitment(&params, &ring).unwrap();
    let strict = new_ad_hoc_commitment(&params, &ring).unwrap();
    assert_eq!(padded, strict);
}

#[test]
fn ad_hoc_commitment_rejects_a_list_beyond_capacity() {
    // Parameters for ring size 8 have a keyset capacity of 255 entries.
    let params = RingParams::new(&srs_bytes(8), 8).unwrap();
    let keys: Vec<Vec<u8>> = (0..256).map(|_| some_key(1)).collect();
    assert_eq!(new_ad_hoc_commitment(&params, &keys), Err(Error::InvalidInput));
}

#[test]
fn params_reject_a_truncated_srs() {
    let srs = srs_bytes(8);
    assert_eq!(
        RingParams::new(&srs[..srs.len() / 2], 8).err(),
        Some(Error::DecodeFailure)
    );
    // An SRS built for a small ring cannot serve a much larger one.
    assert_eq!(RingParams::new(&srs, 4000).err(), Some(Error::DecodeFailure));
}

#[test]
fn params_reject_a_ring_size_beyond_the_machine_bound() {
    let srs = srs_bytes(8);
    assert_eq!(
        RingParams::new(&srs, MAX_RING_SIZE + 1).err(),
        Some(Error::InvalidInput)
    );
    assert_eq!(RingParams::new(&srs, usize::MAX).err(), Some(Error::InvalidInput));
}

#[test]
fn padding_point_is_not_a_derivable_public_key() {
    // The padding key is a fixed constant of the suite with unknown
    // discrete log; committing a ring that already holds it succeeds.
    let point = ark_vrf::suites::bandersnatch::RingProofParams::padding_point();
    let mut encoded = Vec::new();
    point.serialize_compressed(&mut encoded).unwrap();
    let params = RingParams::new(&srs_bytes(8), 8).unwrap();
    let mut ring = ring_of(8);
    ring[7] = encoded;
    assert!(new_ad_hoc_commitment(&params, &ring).is_ok());
}
