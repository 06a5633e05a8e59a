use azero_pay::{claim_digest, AzeroPay, AzeroPayError};

/// A compressed public key and a 65-byte recoverable signature over the
/// claim digest of `id`, from the secp256k1 key with the given seed.
fn key_and_signature(seed: &[u8; 32], id: &str) -> ([u8; 33], [u8; 65]) {
    let signing_key = k256::ecdsa::SigningKey::from_slice(seed).expect("seed is a valid scalar");
    let mut public_key = [0u8; 33];
    public_key.copy_from_slice(&signing_key.verifying_key().to_sec1_bytes());
    let digest = claim_digest(&id.to_string());
    let (signature, recovery_id) = signing_key.sign_prehash_recoverable(&digest);
    let mut out = [0u8; 65];
    out[..64].copy_from_slice(&signature.to_bytes());
    out[64] = recovery_id.to_byte();
    (public_key, out)
}

#[test]
fn send_and_redeem() {
    let claim_id = "test".to_string();
    let (public_key, signature) = key_and_signature(&[11u8; 32], "test");
    let mut pay = AzeroPay::new();
    assert_eq!(pay.create(claim_id.clone(), public_key, 100_000), Ok(()));
    assert_eq!(pay.redeem(claim_id.clone(), signature), Ok(100_000));
    assert_eq!(
        pay.redeem(claim_id, signature),
        Err(AzeroPayError::AlreadyRedeemed)
    );
}

#[test]
fn send_and_redeem2() {
    let claim_id = "fbc2cc1b-ca79-4a85-a13d-e6eeb194ef0c".to_string();
    let public_key: [u8; 33] = [
        3, 234, 55, 59, 159, 61, 97, 88, 134, 232, 128, 24, 28, 195, 77, 94, 216, 127, 64, 49,
        191, 120, 178, 203, 89, 149, 138, 121, 22, 151, 121, 222, 27,
    ];
    let signature: [u8; 65] = [
        253, 172, 211, 231, 72, 254, 121, 40, 187, 184, 119, 74, 177, 198, 177, 145, 192, 212,
        221, 176, 193, 156, 99, 210, 9, 70, 212, 200, 236, 105, 69, 143, 123, 32, 201, 141, 148,
        201, 199, 134, 246, 87, 239, 55, 122, 161, 242, 225, 233, 24, 248, 129, 195, 82, 172, 207,
        93, 185, 71, 168, 202, 251, 16, 228, 0,
    ];
    let mut pay = AzeroPay::new();
    assert_eq!(pay.create(claim_id.clone(), public_key, 100_000), Ok(()));
    assert_eq!(pay.redeem(claim_id.clone(), signature), Ok(100_000));
    assert_eq!(
        pay.redeem(claim_id, signature),
        Err(AzeroPayError::AlreadyRedeemed)
    );
}

#[test]
fn redeem_pays_the_deposit_once() {
    let claim_id = "claim-1".to_string();
    let (public_key, signature) = key_and_signature(&[21u8; 32], "claim-1");
    let mut pay = AzeroPay::new();
    assert_eq!(pay.create(claim_id.clone(), public_key, 100), Ok(()));
    assert_eq!(pay.redeem(claim_id.clone(), signature), Ok(100));
    assert_eq!(
        pay.redeem(claim_id.clone(), signature),
        Err(AzeroPayError::AlreadyRedeemed)
    );
    assert!(pay.claims.get(&claim_id).unwrap().redeemed);
}

#[test]
fn wrong_key_fails_then_right_key_succeeds() {
    let claim_id = "claim-2".to_string();
    let (public_key, good_signature) = key_and_signature(&[31u8; 32], "claim-2");
    let (_, foreign_signature) = key_and_signature(&[32u8; 32], "claim-2");
    let mut pay = AzeroPay::new();
    assert_eq!(pay.create(claim_id.clone(), public_key, 50), Ok(()));
    assert_eq!(
        pay.redeem(claim_id.clone(), foreign_signature),
        Err(AzeroPayError::InvalidSignature)
    );
    assert!(!pay.claims.get(&claim_id).unwrap().redeemed);
    assert_eq!(pay.redeem(claim_id, good_signature), Ok(50));
}

#[test]
fn flipped_signature_bit_is_rejected() {
    let claim_id = "claim-3".to_string();
    let (public_key, mut signature) = key_and_signature(&[41u8; 32], "claim-3");
    signature[3] ^= 1;
    let mut pay = AzeroPay::new();
    assert_eq!(pay.create(claim_id.clone(), public_key, 9), Ok(()));
    assert_eq!(
        pay.redeem(claim_id.clone(), signature),
        Err(AzeroPayError::InvalidSignature)
    );
    assert!(!pay.claims.get(&claim_id).unwrap().redeemed);
}

#[test]
fn invalid_recovery_id_is_rejected() {
    let claim_id = "claim-4".to_string();
    let (public_key, mut signature) = key_and_signature(&[51u8; 32], "claim-4");
    signature[64] = 7;
    let mut pay = AzeroPay::new();
    assert_eq!(pay.create(claim_id.clone(), public_key, 9), Ok(()));
    assert_eq!(
        pay.redeem(claim_id, signature),
        Err(AzeroPayError::InvalidSignature)
    );
}

#[test]
fn zero_deposit_redeems_zero() {
    let claim_id = "free".to_string();
    let (public_key, signature) = key_and_signature(&[61u8; 32], "free");
    let mut pay = AzeroPay::new();
    assert_eq!(pay.create(claim_id.clone(), public_key, 0), Ok(()));
    assert_eq!(pay.redeem(claim_id, signature), Ok(0));
}

#[test]
fn empty_identifier_is_a_working_key() {
    let claim_id = String::new();
    let (public_key, signature) = key_and_signature(&[71u8; 32], "");
    let mut pay = AzeroPay::new();
    assert_eq!(pay.create(claim_id.clone(), public_key, 3), Ok(()));
    assert_eq!(pay.redeem(claim_id, signature), Ok(3));
}
