//! A claim-based, non-interactive value-transfer primitive.
//!
//! A payer deposits value under a claim identifier and binds it to a
//! compressed secp256k1 public key; whoever produces a valid recoverable
//! ECDSA signature over that identifier may redeem the deposited value
//! exactly once.

mod claim;
mod crypto;
mod errors;
mod laws;
mod pay;
mod store;

pub use claim::Claim;
pub use claim::ClaimView;
pub use claim::ClamimRequest;
pub use crypto::blake2b256_of;
pub use crypto::ecdsa_recover_of;
pub use crypto::scale_encode_of;
pub use crypto::MAX_CLAIM_ID_CHARS;
pub use errors::AzeroPayError;
pub use laws::lemma_at_most_once;
pub use laws::lemma_at_most_one_payout;
pub use laws::lemma_authentication;
pub use laws::lemma_create_preserves_claims;
pub use laws::lemma_create_unique;
pub use laws::lemma_exactly_one_payout;
pub use laws::lemma_idempotent_rejection;
pub use laws::lemma_no_payout_without_authorization;
pub use laws::lemma_redeem_not_found;
pub use laws::lemma_redeem_preserves_claims;
pub use laws::lemma_value_conservation;
pub use pay::authorizes;
pub use pay::claim_digest;
pub use pay::create_step;
pub use pay::recovered_key_of;
pub use pay::redeem_attempts;
pub use pay::redeem_step;
pub use pay::AzeroPay;
pub use store::ClaimStore;
