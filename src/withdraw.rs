//! The withdrawal path: proof-gated release of funds from the shielded pool.
use vstd::prelude::*;
use crate::bytes::Address;
use crate::error::PrivacyError;
use crate::nullifier::{is_spent, NullifierRecord, NullifierRegistry};
use crate::pool::ShieldedPool;
use crate::transfer::{Holder, Transfer};
use crate::zk::{assemble_inputs, withdrawal_inputs, Proof, ProofVerifier, PublicInputs};

verus! {

/// The first check that a withdrawal fails, if any, in the order they run:
/// the pool's state and the amount, then the proof (`accepted`), then the
/// nullifier. Each check runs before any change.
pub open spec fn unshield_error(
    pool: ShieldedPool,
    spent: Seq<NullifierRecord>,
    amount: u64,
    nullifier: [u8; 32],
    accepted: bool,
) -> Option<PrivacyError> {
    if !pool.is_active {
        Some(PrivacyError::PoolNotActive)
    } else if amount == 0 {
        Some(PrivacyError::InvalidAmount)
    } else if amount > pool.total_shielded {
        Some(PrivacyError::InsufficientPoolBalance)
    } else if !accepted {
        Some(PrivacyError::InvalidProof)
    } else if is_spent(spent, pool.authority, nullifier) {
        Some(PrivacyError::NullifierAlreadyUsed)
    } else {
        None
    }
}

/// The pool after an accepted withdrawal of `amount` that submitted `new_root`.
pub open spec fn unshielded(pool: ShieldedPool, amount: u64, new_root: [u8; 32], now: i64) -> ShieldedPool {
    ShieldedPool {
        accumulator_root: new_root,
        total_shielded: (pool.total_shielded - amount) as u64,
        last_tx_at: now,
        ..pool
    }
}

/// The tombstone an accepted withdrawal leaves.
pub open spec fn spend_record(pool: ShieldedPool, nullifier: [u8; 32], now: i64) -> NullifierRecord {
    NullifierRecord { pool: pool.authority, nullifier, used_at: now }
}

/// The payout of an accepted withdrawal.
pub open spec fn payout(pool: ShieldedPool, recipient: Address, amount: u64) -> Transfer {
    Transfer { from: Holder::Pool(pool.authority), to: Holder::Wallet(recipient), amount }
}

/// Whether `verifier` accepts `proof` for a withdrawal with `new_root` and
/// `nullifier`, given the caller's public inputs.
pub open spec fn proof_accepted<V: ProofVerifier>(
    verifier: V,
    proof: Proof,
    given: Seq<[u8; 32]>,
    new_root: [u8; 32],
    nullifier: [u8; 32],
) -> bool {
    verifier.accepts(proof, withdrawal_inputs(given, new_root, nullifier))
}

/// Withdraws `amount` from the pool to `recipient`, spending `nullifier_hash`.
///
/// Runs the checks of `unshield_error` in order; the first that fails
/// aborts with nothing changed. Otherwise the nullifier is recorded as
/// spent, the root is overwritten with `new_root`, and `amount` leaves the
/// pool's custody for the recipient.
pub fn unshield<V: ProofVerifier>(
    pool: &mut ShieldedPool,
    nullifiers: &mut NullifierRegistry,
    verifier: &V,
    recipient: Address,
    amount: u64,
    nullifier_hash: [u8; 32],
    new_root: [u8; 32],
    proof: &Proof,
    public_inputs: &PublicInputs,
    now: i64,
) -> (r: Result<Transfer, PrivacyError>)
    requires
        old(nullifiers).wf(),
    ensures
        final(nullifiers).wf(),
        match unshield_error(
            *old(pool),
            old(nullifiers)@,
            amount,
            nullifier_hash,
            proof_accepted(*verifier, *proof, public_inputs@, new_root, nullifier_hash),
        ) {
            Some(e) => r == Err::<Transfer, PrivacyError>(e) && *final(pool) == *old(pool)
                && final(nullifiers)@ == old(nullifiers)@,
            None => r == Ok::<Transfer, PrivacyError>(payout(*old(pool), recipient, amount))
                && *final(pool) == unshielded(*old(pool), amount, new_root, now)
                && final(nullifiers)@ == old(nullifiers)@.push(
                spend_record(*old(pool), nullifier_hash, now),
            ),
        },
{
    if !pool.is_active {
        return Err(PrivacyError::PoolNotActive);
    }
    if amount == 0 {
        return Err(PrivacyError::InvalidAmount);
    }
    if amount > pool.total_shielded {
        return Err(PrivacyError::InsufficientPoolBalance);
    }
    let inputs = assemble_inputs(public_inputs, &new_root, &nullifier_hash);
    if !verifier.verify(proof, &inputs) {
        return Err(PrivacyError::InvalidProof);
    }
    if nullifiers.contains(&pool.authority, &nullifier_hash) {
        return Err(PrivacyError::NullifierAlreadyUsed);
    }
    nullifiers.insert(NullifierRecord { pool: pool.authority, nullifier: nullifier_hash, used_at: now });
    pool.accumulator_root = new_root;
    pool.total_shielded = pool.total_shielded - amount;
    pool.last_tx_at = now;
    Ok(Transfer { from: Holder::Pool(pool.authority), to: Holder::Wallet(recipient), amount })
}

} // verus!
