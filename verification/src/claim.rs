use vstd::prelude::*;

verus! {

/// One value-bearing record, keyed by a claim identifier in the store.
///
/// `public_key` is the 33-byte compressed secp256k1 point authorized to
/// redeem; `value` is the amount deposited at creation; `redeemed` flips
/// from `false` to `true` exactly once, when the claim is collected.
/// `public_key` and `value` never change after creation.
#[derive(Debug, PartialEq, Eq)]
pub struct Claim {
    pub public_key: Vec<u8>,
    pub redeemed: bool,
    pub value: u128,
}

/// The mathematical model of a [`Claim`]: the same three fields, with the
/// key as a sequence of bytes.
pub ghost struct ClaimView {
    pub public_key: Seq<u8>,
    pub redeemed: bool,
    pub value: u128,
}

impl View for Claim {
    type V = ClaimView;

    open spec fn view(&self) -> ClaimView {
        ClaimView { public_key: self.public_key@, redeemed: self.redeemed, value: self.value }
    }
}

/// A claim request addressed by a numeric handle.
pub struct ClamimRequest {
    pub claim_id: u128,
}

} // verus!
