use bandersnatch_ring_vrf::{new_public_key_from_secret, new_secret_from_seed, Error};

#[test]
fn secret_from_seed_is_deterministic() {
    let seed = [7u8; 32];
    let s1 = new_secret_from_seed(&seed).unwrap();
    let s2 = new_secret_from_seed(&seed).unwrap();
    assert_eq!(s1, s2);
    assert_eq!(s1.len(), 32);
    let p1 = new_public_key_from_secret(&s1).unwrap();
    let p2 = new_public_key_from_secret(&s2).unwrap();
    assert_eq!(p1, p2);
    assert_eq!(p1.len(), 32);
}

#[test]
fn different_seeds_give_different_secrets() {
    let s1 = new_secret_from_seed(&[0u8; 32]).unwrap();
    let s2 = new_secret_from_seed(&[1u8; 32]).unwrap();
    assert_ne!(s1, s2);
}

#[test]
fn seed_must_be_32_bytes() {
    assert_eq!(new_secret_from_seed(&[0u8; 31]), Err(Error::InvalidInput));
    assert_eq!(new_secret_from_seed(&[0u8; 33]), Err(Error::InvalidInput));
    assert_eq!(new_secret_from_seed(&[]), Err(Error::InvalidInput));
}

#[test]
fn secret_must_be_32_bytes() {
    assert_eq!(new_public_key_from_secret(&[0u8; 31]), Err(Error::InvalidInput));
    assert_eq!(new_public_key_from_secret(&[]), Err(Error::InvalidInput));
}

#[test]
fn malformed_secret_is_rejected() {
    // 32 bytes encoding an integer far above the subgroup order: not canonical.
    assert_eq!(new_public_key_from_secret(&[0xffu8; 32]), Err(Error::DecodeFailure));
}

#[test]
fn derived_secret_yields_public_key() {
    let secret = new_secret_from_seed(&[0u8; 32]).unwrap();
    let public = new_public_key_from_secret(&secret).unwrap();
    assert_eq!(public.len(), 32);
    // Stable across repeated derivation from the same stored secret.
    assert_eq!(public, new_public_key_from_secret(&secret).unwrap());
}
