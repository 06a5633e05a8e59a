use vstd::prelude::*;

verus! {

/// The fixed set of failure outcomes surfaced to callers.
///
/// Every failure is a value returned to the caller; no operation commits a
/// partial state change alongside an error.
#[derive(Clone, Copy, Debug, PartialEq, Eq)]
pub enum AzeroPayError {
    /// A claim with the requested identifier already exists.
    AlreadyExists,
    /// No claim with the requested identifier exists.
    NotFound,
    /// Public-key recovery failed, or the recovered key does not match the
    /// key bound to the claim. The two causes are deliberately not
    /// distinguished.
    InvalidSignature,
    /// The claim was already collected; it can never be collected again.
    AlreadyRedeemed,
    /// The host environment failed to move the redeemed value to the
    /// caller. The verified lifecycle never produces this value itself: it
    /// settles a claim and returns the amount owed in one step, and leaves
    /// executing the transfer to the host.
    TransferFailed,
}

} // verus!
