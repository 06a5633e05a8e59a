use vstd::prelude::*;

verus! {

/// The most characters a claim identifier may hold. The canonical encoding
/// prefixes the identifier's UTF-8 byte length, which must fit in 32 bits;
/// a character encodes to at most four bytes, so this bound keeps the
/// encoder within that limit on every machine.
pub const MAX_CLAIM_ID_CHARS: usize = 0x3FFF_FFFF;

/// The canonical SCALE byte encoding of an identifier string: the byte
/// length as a compact-integer prefix, followed by the UTF-8 bytes. The
/// signer must hash exactly these bytes.
pub uninterp spec fn scale_encode_of(id: Seq<char>) -> Seq<u8>;

/// The 256-bit BLAKE2b digest of a byte sequence.
pub uninterp spec fn blake2b256_of(bytes: Seq<u8>) -> Seq<u8>;

/// The compressed secp256k1 public key recovered from a 65-byte recoverable
/// ECDSA signature and a 32-byte message digest, or nothing when the
/// signature is malformed, its recovery id is invalid, or no key can be
/// recovered.
pub uninterp spec fn ecdsa_recover_of(signature: Seq<u8>, digest: Seq<u8>) -> Option<Seq<u8>>;

/// Relies on parity_scale_codec::Encode::encode for String: SCALE is a
/// canonical encoding, so the bytes are a function of the characters alone.
/// The encoder aborts when the byte length overflows its 32-bit length
/// prefix, so inputs that could reach that point are excluded here.
#[verifier::external_body]
pub(crate) fn scale_encode(id: &String) -> (r: Vec<u8>)
    requires
        id@.len() <= MAX_CLAIM_ID_CHARS,
    ensures
        r@ == scale_encode_of(id@),
{
    parity_scale_codec::Encode::encode(id)
}

/// Relies on ink::env::hash_bytes with the Blake2x256 hasher: BLAKE2b with
/// a 256-bit output, a function of the input bytes alone.
#[verifier::external_body]
pub(crate) fn blake2b256(bytes: &Vec<u8>) -> (r: [u8; 32])
    ensures
        r@ == blake2b256_of(bytes@),
{
    let mut output = [0u8; 32];
    ink::env::hash_bytes::<ink::env::hash::Blake2x256>(bytes.as_slice(), &mut output);
    output
}

/// Relies on k256::ecdsa::VerifyingKey::recover_from_prehash: deterministic
/// secp256k1 public-key recovery, a function of the signature and digest
/// alone. The last signature byte is the recovery id (0 to 3); every
/// malformed input is answered with `None`, never a panic.
#[verifier::external_body]
pub(crate) fn ecdsa_recover(signature: &[u8; 65], digest: &[u8; 32]) -> (r: Option<[u8; 33]>)
    ensures
        match r {
            Some(pk) => ecdsa_recover_of(signature@, digest@) == Some(pk@),
            None => ecdsa_recover_of(signature@, digest@) is None,
        },
{
    let recovery_id = k256::ecdsa::RecoveryId::from_byte(signature[64])?;
    let sig = k256::ecdsa::Signature::from_slice(&signature[..64]).ok()?;
    let key = k256::ecdsa::VerifyingKey::recover_from_prehash(digest, &sig, recovery_id).ok()?;
    let mut out = [0u8; 33];
    out.copy_from_slice(&key.to_sec1_bytes());
    Some(out)
}

} // verus!
