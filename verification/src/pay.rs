use vstd::prelude::*;

use crate::claim::{Claim, ClaimView};
use crate::crypto::{blake2b256, blake2b256_of, ecdsa_recover, ecdsa_recover_of, scale_encode,
    scale_encode_of, MAX_CLAIM_ID_CHARS};
use crate::errors::AzeroPayError;
use crate::store::ClaimStore;

verus! {

/// The key recovered from `signature` and the digest of the canonical
/// encoding of `id`, or nothing when recovery fails.
pub open spec fn recovered_key_of(id: Seq<char>, signature: Seq<u8>) -> Option<Seq<u8>> {
    ecdsa_recover_of(signature, blake2b256_of(scale_encode_of(id)))
}

/// Whether `signature` proves the right to collect the claim `id` bound to
/// `public_key`: the recovered key must equal the bound key byte for byte.
pub open spec fn authorizes(id: Seq<char>, signature: Seq<u8>, public_key: Seq<u8>) -> bool {
    recovered_key_of(id, signature) == Some(public_key)
}

/// The state transition of a creation request: the store after the call,
/// and the caller-visible outcome. Creation fails if and only if the
/// identifier is already taken, and a failed attempt changes nothing.
pub open spec fn create_step(
    store: Map<Seq<char>, ClaimView>,
    id: Seq<char>,
    public_key: Seq<u8>,
    deposit: u128,
) -> (Map<Seq<char>, ClaimView>, Result<(), AzeroPayError>) {
    if store.contains_key(id) {
        (store, Err(AzeroPayError::AlreadyExists))
    } else {
        (
            store.insert(id, ClaimView { public_key, redeemed: false, value: deposit }),
            Ok(()),
        )
    }
}

/// The state transition of a redemption request: the store after the call,
/// and the caller-visible outcome, which on success is the amount the host
/// must pay the caller. Redemption succeeds if and only if the claim
/// exists, was never collected, and the signature authorizes collection;
/// the one state change it ever makes is flipping that claim's `redeemed`
/// flag to `true`.
pub open spec fn redeem_step(
    store: Map<Seq<char>, ClaimView>,
    id: Seq<char>,
    signature: Seq<u8>,
) -> (Map<Seq<char>, ClaimView>, Result<u128, AzeroPayError>) {
    if !store.contains_key(id) {
        (store, Err(AzeroPayError::NotFound))
    } else if store[id].redeemed {
        (store, Err(AzeroPayError::AlreadyRedeemed))
    } else if !authorizes(id, signature, store[id].public_key) {
        (store, Err(AzeroPayError::InvalidSignature))
    } else {
        (
            store.insert(
                id,
                ClaimView {
                    public_key: store[id].public_key,
                    redeemed: true,
                    value: store[id].value,
                },
            ),
            Ok(store[id].value),
        )
    }
}

/// The store and the number of successful payouts after a whole sequence of
/// redemption attempts on one claim, each with its own signature, executed
/// one at a time in order.
pub open spec fn redeem_attempts(
    store: Map<Seq<char>, ClaimView>,
    id: Seq<char>,
    signatures: Seq<Seq<u8>>,
) -> (Map<Seq<char>, ClaimView>, nat)
    decreases signatures.len(),
{
    if signatures.len() == 0 {
        (store, 0)
    } else {
        let before = redeem_attempts(store, id, signatures.drop_last());
        let step = redeem_step(before.0, id, signatures.last());
        (step.0, before.1 + if step.1 is Ok { 1nat } else { 0nat })
    }
}

/// The digest a signer must sign to redeem the claim `id`: the 256-bit
/// BLAKE2b hash of the canonical SCALE encoding of the identifier string.
/// The identifier must fit the encoding's length prefix; see
/// [`MAX_CLAIM_ID_CHARS`].
pub fn claim_digest(id: &String) -> (r: [u8; 32])
    requires
        id@.len() <= MAX_CLAIM_ID_CHARS,
    ensures
        r@ == blake2b256_of(scale_encode_of(id@)),
{
    let encoded = scale_encode(id);
    blake2b256(&encoded)
}

/// The claim lifecycle: creation and single-use redemption over one
/// [`ClaimStore`].
pub struct AzeroPay {
    pub claims: ClaimStore,
}

impl View for AzeroPay {
    type V = Map<Seq<char>, ClaimView>;

    open spec fn view(&self) -> Map<Seq<char>, ClaimView> {
        self.claims@
    }
}

impl AzeroPay {
    /// An empty claim store: no claim exists yet.
    pub fn new() -> (r: Self)
        ensures
            r@ == Map::<Seq<char>, ClaimView>::empty(),
    {
        AzeroPay { claims: ClaimStore::new() }
    }

    /// Deposits `deposit` under `id` and binds it to `public_key`, as
    /// [`create_step`] says: it fails with `AlreadyExists` if and only if
    /// `id` is already taken, and otherwise records a fresh, uncollected
    /// claim holding exactly the deposited amount.
    ///
    /// `deposit` is the value the host environment received alongside the
    /// call; it may be zero. The deposited value stays in the contract's
    /// custody until redemption.
    pub fn create(&mut self, id: String, public_key: [u8; 33], deposit: u128) -> (r: Result<
        (),
        AzeroPayError,
    >)
        ensures
            final(self)@ == create_step(old(self)@, id@, public_key@, deposit).0,
            r == create_step(old(self)@, id@, public_key@, deposit).1,
    {
        if self.claims.contains(&id) {
            return Err(AzeroPayError::AlreadyExists);
        }
        let claim = Claim {
            public_key: vstd::slice::slice_to_vec(vstd::array::array_as_slice(&public_key)),
            redeemed: false,
            value: deposit,
        };
        self.claims.put(id, claim);
        Ok(())
    }

    /// Collects the claim `id`, as [`redeem_step`] says: it fails with
    /// `NotFound` if no such claim exists, with `AlreadyRedeemed` if the
    /// claim was already collected (with any signature, before any
    /// verification), and with `InvalidSignature` if the key recovered from
    /// `signature` and the claim digest is not the bound key; otherwise it
    /// marks the claim collected and returns the deposited amount, which
    /// the host environment then pays the caller.
    ///
    /// Marking the claim collected is the point of no return and happens
    /// before any value moves, so a re-entrant call can never collect the
    /// same claim twice.
    ///
    /// The identifier must fit the canonical encoding's length prefix; see
    /// [`MAX_CLAIM_ID_CHARS`].
    pub fn redeem(&mut self, claim_id: String, signature: [u8; 65]) -> (r: Result<
        u128,
        AzeroPayError,
    >)
        requires
            claim_id@.len() <= MAX_CLAIM_ID_CHARS,
        ensures
            final(self)@ == redeem_step(old(self)@, claim_id@, signature@).0,
            r == redeem_step(old(self)@, claim_id@, signature@).1,
    {
        let public_key: Vec<u8>;
        let value: u128;
        match self.claims.get(&claim_id) {
            None => {
                return Err(AzeroPayError::NotFound);
            },
            Some(claim) => {
                if claim.redeemed {
                    return Err(AzeroPayError::AlreadyRedeemed);
                }
                let digest = claim_digest(&claim_id);
                let granted = match ecdsa_recover(&signature, &digest) {
                    Some(recovered) => pk_matches(&claim.public_key, &recovered),
                    None => false,
                };
                if !granted {
                    return Err(AzeroPayError::InvalidSignature);
                }
                public_key = vstd::slice::slice_to_vec(claim.public_key.as_slice());
                value = claim.value;
            },
        }
        let settled = Claim { public_key, redeemed: true, value };
        self.claims.put(claim_id, settled);
        Ok(value)
    }
}

/// Whether the stored key equals the recovered key byte for byte.
fn pk_matches(stored: &Vec<u8>, recovered: &[u8; 33]) -> (r: bool)
    ensures
        r == (stored@ == recovered@),
{
    if stored.len() != 33 {
        return false;
    }
    let mut i: usize = 0;
    while i < 33
        invariant
            0 <= i <= 33,
            stored@.len() == 33,
            forall|j: int| 0 <= j < i ==> stored@[j] == recovered@[j],
        decreases 33 - i,
    {
        if stored[i] != recovered[i] {
            return false;
        }
        i += 1;
    }
    proof {
        assert(stored@ =~= recovered@);
    }
    true
}

} // verus!
