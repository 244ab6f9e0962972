//! Properties that relate the operations across calls and over all inputs.
use vstd::prelude::*;
use crate::bytes::Address;
use crate::error::PrivacyError;
use crate::nullifier::{is_spent, NullifierRecord};
use crate::pool::{shield_error, shielded, ShieldedPool};
use crate::stealth::{after_claim, claim_error, claim_payout, new_escrow, send_error, StealthAccount};
use crate::transfer::{Holder, Transfer};
use crate::withdraw::{spend_record, unshield_error, unshielded};

verus! {

/// A deposit of a positive amount into an active pool never wraps: it
/// either adds exactly `amount` to the pool's custody and exactly one to
/// its leaf count, or fails with `Overflow`, which it does whenever the
/// new total would leave the range of `u64`.
pub proof fn lemma_shield_adds_exactly(pool: ShieldedPool, amount: u64, new_root: [u8; 32], now: i64)
    requires
        pool.is_active,
        amount > 0,
    ensures
        shield_error(pool, amount) is None ==> {
            &&& shielded(pool, amount, new_root, now).total_shielded == pool.total_shielded + amount
            &&& shielded(pool, amount, new_root, now).next_index == pool.next_index + 1
        },
        shield_error(pool, amount) is Some ==> shield_error(pool, amount) == Some(PrivacyError::Overflow),
        pool.total_shielded + amount > u64::MAX ==> shield_error(pool, amount) == Some(PrivacyError::Overflow),
{
}

/// A nullifier is spent at most once per pool. After a withdrawal with it
/// is accepted, it is recorded as spent; every later withdrawal from that
/// pool that reuses it is refused, whatever amount, root or proof it
/// brings (so nothing changes), and once it passes the checks that run
/// before the registry, it is refused with `NullifierAlreadyUsed`.
pub proof fn lemma_nullifier_spends_once(
    pool: ShieldedPool,
    spent: Seq<NullifierRecord>,
    amount: u64,
    nullifier: [u8; 32],
    new_root: [u8; 32],
    now: i64,
    later_pool: ShieldedPool,
    later_spent: Seq<NullifierRecord>,
    later_amount: u64,
    later_accepted: bool,
)
    requires
        unshield_error(pool, spent, amount, nullifier, true) is None,
        later_pool.authority == pool.authority,
        spent.push(spend_record(pool, nullifier, now)).is_prefix_of(later_spent),
    ensures
        unshielded(pool, amount, new_root, now).authority == pool.authority,
        is_spent(spent.push(spend_record(pool, nullifier, now)), pool.authority, nullifier),
        unshield_error(later_pool, later_spent, later_amount, nullifier, later_accepted) is Some,
        later_pool.is_active && 0 < later_amount <= later_pool.total_shielded && later_accepted
            ==> unshield_error(later_pool, later_spent, later_amount, nullifier, later_accepted)
            == Some(PrivacyError::NullifierAlreadyUsed),
{
    let spent1 = spent.push(spend_record(pool, nullifier, now));
    let k = spent.len() as int;
    assert(spent1[k].pool == pool.authority && spent1[k].nullifier == nullifier);
    assert(later_spent[k] == later_spent.subrange(0, spent1.len() as int)[k]);
    assert(is_spent(later_spent, later_pool.authority, nullifier));
}

/// A proof that the verifier rejects fails the withdrawal with
/// `InvalidProof`, whether or not the nullifier is fresh, on every active
/// pool that holds the amount; such a withdrawal changes nothing.
pub proof fn lemma_rejected_proof_fails(
    pool: ShieldedPool,
    spent: Seq<NullifierRecord>,
    amount: u64,
    nullifier: [u8; 32],
)
    requires
        pool.is_active,
        0 < amount <= pool.total_shielded,
    ensures
        unshield_error(pool, spent, amount, nullifier, false) == Some(PrivacyError::InvalidProof),
{
}

/// A withdrawal of more than an active pool holds fails with
/// `InsufficientPoolBalance`, even with a proof the verifier accepts and a
/// fresh nullifier.
pub proof fn lemma_overdraw_fails(
    pool: ShieldedPool,
    spent: Seq<NullifierRecord>,
    amount: u64,
    nullifier: [u8; 32],
    accepted: bool,
)
    requires
        pool.is_active,
        amount > pool.total_shielded,
    ensures
        unshield_error(pool, spent, amount, nullifier, accepted) == Some(
            PrivacyError::InsufficientPoolBalance,
        ),
{
}

/// A stealth payment pays out once. After `amount` is sent to a fresh
/// one-time address, a claim by that address's identity is accepted, moves
/// exactly `amount` to it and marks the escrow claimed; any further claim,
/// by anyone, fails with `AlreadyClaimed` and moves nothing.
pub proof fn lemma_send_then_claim(
    escrows: Map<Address, StealthAccount>,
    sender: Address,
    stealth_address: Address,
    ephemeral_pubkey: [u8; 32],
    view_tag: u8,
    amount: u64,
    now: i64,
    later_claimer: Address,
)
    requires
        send_error(escrows, stealth_address, amount) is None,
    ensures
        ({
            let sent = escrows.insert(
                stealth_address,
                new_escrow(sender, stealth_address, ephemeral_pubkey, view_tag, amount, now),
            );
            let claimed = after_claim(sent, stealth_address);
            &&& claim_error(sent, stealth_address, stealth_address) is None
            &&& claim_payout(sent, stealth_address, stealth_address) == Transfer {
                from: Holder::Escrow(stealth_address),
                to: Holder::Wallet(stealth_address),
                amount,
            }
            &&& claimed[stealth_address].claimed
            &&& claim_error(claimed, stealth_address, later_claimer) == Some(PrivacyError::AlreadyClaimed)
        }),
{
}

} // verus!
