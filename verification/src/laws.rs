use vstd::prelude::*;

use crate::claim::ClaimView;
use crate::errors::AzeroPayError;
use crate::pay::{authorizes, create_step, redeem_attempts, redeem_step};

verus! {

/// Law: creation is unique. After a creation of `id` succeeds, a second
/// creation of the same `id` fails with `AlreadyExists`, whatever key and
/// deposit it brings, and the stored record is unchanged by the failed
/// attempt.
pub proof fn lemma_create_unique(
    store: Map<Seq<char>, ClaimView>,
    id: Seq<char>,
    public_key1: Seq<u8>,
    deposit1: u128,
    public_key2: Seq<u8>,
    deposit2: u128,
)
    requires
        create_step(store, id, public_key1, deposit1).1 is Ok,
    ensures
        ({
            let taken = create_step(store, id, public_key1, deposit1).0;
            create_step(taken, id, public_key2, deposit2) == (
                taken,
                Err::<(), AzeroPayError>(AzeroPayError::AlreadyExists),
            )
        }),
{
}

/// Law: no premature redemption. A redemption attempt on an identifier
/// that no claim was created under fails with `NotFound` and mutates no
/// state, whatever the signature.
pub proof fn lemma_redeem_not_found(
    store: Map<Seq<char>, ClaimView>,
    id: Seq<char>,
    signature: Seq<u8>,
)
    requires
        !store.contains_key(id),
    ensures
        redeem_step(store, id, signature) == (
            store,
            Err::<u128, AzeroPayError>(AzeroPayError::NotFound),
        ),
{
}

/// Law: authentication correctness. A redemption attempt on a live,
/// uncollected claim succeeds if and only if the public key recovered from
/// the signature and the claim digest equals the key bound at creation;
/// when it succeeds it pays out the stored value, and when recovery does
/// not produce the bound key it fails with `InvalidSignature` and mutates
/// no state.
pub proof fn lemma_authentication(
    store: Map<Seq<char>, ClaimView>,
    id: Seq<char>,
    signature: Seq<u8>,
)
    requires
        store.contains_key(id),
        !store[id].redeemed,
    ensures
        redeem_step(store, id, signature).1 is Ok <==> authorizes(
            id,
            signature,
            store[id].public_key,
        ),
        authorizes(id, signature, store[id].public_key) ==> redeem_step(store, id, signature).1
            == Ok::<u128, AzeroPayError>(store[id].value),
        !authorizes(id, signature, store[id].public_key) ==> redeem_step(store, id, signature)
            == (store, Err::<u128, AzeroPayError>(AzeroPayError::InvalidSignature)),
{
}

/// Law: at most one payout, pairwise. After a redemption of `id` succeeds,
/// the next redemption attempt on `id` fails with `AlreadyRedeemed` and
/// mutates no state, whatever its signature.
pub proof fn lemma_at_most_once(
    store: Map<Seq<char>, ClaimView>,
    id: Seq<char>,
    signature1: Seq<u8>,
    signature2: Seq<u8>,
)
    requires
        redeem_step(store, id, signature1).1 is Ok,
    ensures
        ({
            let settled = redeem_step(store, id, signature1).0;
            redeem_step(settled, id, signature2) == (
                settled,
                Err::<u128, AzeroPayError>(AzeroPayError::AlreadyRedeemed),
            )
        }),
{
}

/// Law: at most one payout, over any sequence of attempts. However many
/// redemption attempts are made on one claim, in whatever order the host
/// serializes them, at most one succeeds; once one has succeeded the claim
/// is marked collected, and on a claim already collected every attempt
/// fails and changes nothing.
pub proof fn lemma_at_most_one_payout(
    store: Map<Seq<char>, ClaimView>,
    id: Seq<char>,
    signatures: Seq<Seq<u8>>,
)
    ensures
        ({
            let run = redeem_attempts(store, id, signatures);
            &&& run.1 <= 1
            &&& run.1 == 1 ==> run.0.contains_key(id) && run.0[id].redeemed
            &&& store.contains_key(id) && store[id].redeemed ==> run == (store, 0nat)
        }),
    decreases signatures.len(),
{
    if signatures.len() > 0 {
        lemma_at_most_one_payout(store, id, signatures.drop_last());
    }
}

/// Law: without an authorizing signature nothing happens. A run of
/// redemption attempts on a live claim in which no signature recovers to
/// the bound key pays nothing out and leaves the whole store unchanged.
pub proof fn lemma_no_payout_without_authorization(
    store: Map<Seq<char>, ClaimView>,
    id: Seq<char>,
    signatures: Seq<Seq<u8>>,
)
    requires
        store.contains_key(id),
        !store[id].redeemed,
        forall|i: int|
            0 <= i < signatures.len() ==> !authorizes(id, signatures[i], store[id].public_key),
    ensures
        redeem_attempts(store, id, signatures) == (store, 0nat),
    decreases signatures.len(),
{
    if signatures.len() > 0 {
        assert forall|i: int| 0 <= i < signatures.len() - 1 implies !authorizes(
            id,
            signatures.drop_last()[i],
            store[id].public_key,
        ) by {
            assert(signatures.drop_last()[i] == signatures[i]);
        }
        lemma_no_payout_without_authorization(store, id, signatures.drop_last());
        assert(!authorizes(id, signatures.last(), store[id].public_key));
    }
}

/// Law: exactly one payout. For any sequence of competing redemption
/// attempts on one live claim, at least one of which carries an authorizing
/// signature, exactly one attempt succeeds, and the claim ends collected.
pub proof fn lemma_exactly_one_payout(
    store: Map<Seq<char>, ClaimView>,
    id: Seq<char>,
    signatures: Seq<Seq<u8>>,
)
    requires
        store.contains_key(id),
        !store[id].redeemed,
        exists|i: int|
            0 <= i < signatures.len() && authorizes(id, signatures[i], store[id].public_key),
    ensures
        redeem_attempts(store, id, signatures).1 == 1,
        redeem_attempts(store, id, signatures).0.contains_key(id),
        redeem_attempts(store, id, signatures).0[id].redeemed,
    decreases signatures.len(),
{
    let prefix = signatures.drop_last();
    lemma_at_most_one_payout(store, id, prefix);
    if exists|i: int| 0 <= i < prefix.len() && authorizes(id, prefix[i], store[id].public_key) {
        lemma_exactly_one_payout(store, id, prefix);
    } else {
        assert forall|i: int| 0 <= i < prefix.len() implies !authorizes(
            id,
            prefix[i],
            store[id].public_key,
        ) by {
            assert(prefix[i] == signatures[i]);
        }
        lemma_no_payout_without_authorization(store, id, prefix);
        let i = choose|i: int|
            0 <= i < signatures.len() && authorizes(id, signatures[i], store[id].public_key);
        if i < signatures.len() - 1 {
            assert(prefix[i] == signatures[i]);
        }
        assert(signatures.last() == signatures[i]);
    }
}

/// Law: idempotent rejection. Once a claim is marked collected, every
/// redemption attempt on it, with any signature, fails with
/// `AlreadyRedeemed` and mutates no state; the outcome does not depend on
/// the signature, so no verification and no transfer can take place.
pub proof fn lemma_idempotent_rejection(
    store: Map<Seq<char>, ClaimView>,
    id: Seq<char>,
    signature: Seq<u8>,
)
    requires
        store.contains_key(id),
        store[id].redeemed,
    ensures
        redeem_step(store, id, signature) == (
            store,
            Err::<u128, AzeroPayError>(AzeroPayError::AlreadyRedeemed),
        ),
{
}

/// Law: value conservation. When a claim created with some deposit is
/// later redeemed, the amount paid out is exactly that deposit.
pub proof fn lemma_value_conservation(
    store: Map<Seq<char>, ClaimView>,
    id: Seq<char>,
    public_key: Seq<u8>,
    deposit: u128,
    signature: Seq<u8>,
)
    requires
        create_step(store, id, public_key, deposit).1 is Ok,
        redeem_step(create_step(store, id, public_key, deposit).0, id, signature).1 is Ok,
    ensures
        redeem_step(create_step(store, id, public_key, deposit).0, id, signature).1
            == Ok::<u128, AzeroPayError>(deposit),
{
}

/// Law: a creation request, whatever identifier it carries, never changes
/// the key, the value or the collected state of a claim that already
/// exists.
pub proof fn lemma_create_preserves_claims(
    store: Map<Seq<char>, ClaimView>,
    id: Seq<char>,
    public_key: Seq<u8>,
    deposit: u128,
    k: Seq<char>,
)
    requires
        store.contains_key(k),
    ensures
        ({
            let after = create_step(store, id, public_key, deposit).0;
            after.contains_key(k) && after[k] == store[k]
        }),
{
}

/// Law: a redemption request never changes the key or the value of any
/// existing claim, never touches a claim other than the one it names, and
/// never clears a collected mark.
pub proof fn lemma_redeem_preserves_claims(
    store: Map<Seq<char>, ClaimView>,
    id: Seq<char>,
    signature: Seq<u8>,
    k: Seq<char>,
)
    requires
        store.contains_key(k),
    ensures
        ({
            let after = redeem_step(store, id, signature).0;
            &&& after.contains_key(k)
            &&& after[k].public_key == store[k].public_key
            &&& after[k].value == store[k].value
            &&& store[k].redeemed ==> after[k].redeemed
            &&& k != id ==> after[k] == store[k]
        }),
{
}

} // verus!
