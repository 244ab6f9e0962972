//! The shielded pool ledger and its deposit path.
use vstd::prelude::*;
use crate::bytes::Address;
use crate::error::PrivacyError;
use crate::transfer::{Holder, Transfer};

verus! {

/// The aggregate record of a shielded pool; one per authority.
///
/// The accumulator is kept as its latest root only: every accepted
/// deposit or withdrawal overwrites it with the root that its caller
/// submitted. Operations on one pool are therefore applied one at a time,
/// in the order the host serializes them; a proof made against a root
/// that a later operation replaced is left for the verifier to reject.
#[derive(Clone, Copy, Debug, PartialEq, Eq)]
pub struct ShieldedPool {
    /// The identity that owns the pool.
    pub authority: Address,
    /// Digest of the set of note commitments, as last submitted.
    pub accumulator_root: [u8; 32],
    /// Number of commitments deposited so far; the next leaf index.
    pub next_index: u64,
    /// Units held in the pool's custody.
    pub total_shielded: u64,
    /// Whether the pool accepts deposits and withdrawals.
    pub is_active: bool,
    pub created_at: i64,
    pub last_tx_at: i64,
}

/// What an accepted deposit emits: the transfer into custody and the leaf
/// the commitment was given, for off-ledger tree builders.
#[derive(Clone, Copy, Debug, PartialEq, Eq)]
pub struct ShieldReceipt {
    pub transfer: Transfer,
    pub leaf_index: u64,
    pub commitment: [u8; 32],
}

/// Whether every byte of `root` is zero: the root of the empty accumulator.
pub open spec fn is_zero_root(root: [u8; 32]) -> bool {
    forall|i: int| 0 <= i < 32 ==> root[i] == 0
}

/// Whether `pool` is the pool a new `authority` starts with at `now`:
/// empty, active, with the zero root.
pub open spec fn is_new_pool(pool: ShieldedPool, authority: Address, now: i64) -> bool {
    &&& pool.authority == authority
    &&& is_zero_root(pool.accumulator_root)
    &&& pool.next_index == 0
    &&& pool.total_shielded == 0
    &&& pool.is_active
    &&& pool.created_at == now
    &&& pool.last_tx_at == now
}

/// Creates the pool of `authority` at time `now`.
pub fn init_pool(authority: Address, now: i64) -> (pool: ShieldedPool)
    ensures
        is_new_pool(pool, authority, now),
{
    ShieldedPool {
        authority,
        accumulator_root: [0u8; 32],
        next_index: 0,
        total_shielded: 0,
        is_active: true,
        created_at: now,
        last_tx_at: now,
    }
}

/// The first check that a deposit of `amount` into `pool` fails, if any.
pub open spec fn shield_error(pool: ShieldedPool, amount: u64) -> Option<PrivacyError> {
    if !pool.is_active {
        Some(PrivacyError::PoolNotActive)
    } else if amount == 0 {
        Some(PrivacyError::InvalidAmount)
    } else if pool.total_shielded + amount > u64::MAX {
        Some(PrivacyError::Overflow)
    } else if pool.next_index + 1 > u64::MAX {
        Some(PrivacyError::Overflow)
    } else {
        None
    }
}

/// The pool after an accepted deposit of `amount` that submitted `new_root`.
pub open spec fn shielded(pool: ShieldedPool, amount: u64, new_root: [u8; 32], now: i64) -> ShieldedPool {
    ShieldedPool {
        accumulator_root: new_root,
        next_index: (pool.next_index + 1) as u64,
        total_shielded: (pool.total_shielded + amount) as u64,
        last_tx_at: now,
        ..pool
    }
}

/// The receipt of an accepted deposit into `pool`.
pub open spec fn shield_receipt(
    pool: ShieldedPool,
    depositor: Address,
    amount: u64,
    commitment: [u8; 32],
) -> ShieldReceipt {
    ShieldReceipt {
        transfer: Transfer { from: Holder::Wallet(depositor), to: Holder::Pool(pool.authority), amount },
        leaf_index: pool.next_index,
        commitment,
    }
}

/// Deposits `amount` from `depositor` into the pool under `commitment`.
///
/// Neither the commitment's form nor whether `new_root` reflects its
/// insertion is checked here: soundness rests on the withdrawal proof,
/// which is checked against the root. The root is taken as submitted.
pub fn shield(
    pool: &mut ShieldedPool,
    depositor: Address,
    amount: u64,
    commitment: [u8; 32],
    new_root: [u8; 32],
    now: i64,
) -> (r: Result<ShieldReceipt, PrivacyError>)
    ensures
        match shield_error(*old(pool), amount) {
            Some(e) => r == Err::<ShieldReceipt, PrivacyError>(e) && *final(pool) == *old(pool),
            None => r == Ok::<ShieldReceipt, PrivacyError>(
                shield_receipt(*old(pool), depositor, amount, commitment),
            ) && *final(pool) == shielded(*old(pool), amount, new_root, now),
        },
{
    if !pool.is_active {
        return Err(PrivacyError::PoolNotActive);
    }
    if amount == 0 {
        return Err(PrivacyError::InvalidAmount);
    }
    let total = match pool.total_shielded.checked_add(amount) {
        Some(t) => t,
        None => return Err(PrivacyError::Overflow),
    };
    let index = match pool.next_index.checked_add(1) {
        Some(i) => i,
        None => return Err(PrivacyError::Overflow),
    };
    let leaf_index = pool.next_index;
    pool.total_shielded = total;
    pool.next_index = index;
    pool.accumulator_root = new_root;
    pool.last_tx_at = now;
    Ok(ShieldReceipt {
        transfer: Transfer { from: Holder::Wallet(depositor), to: Holder::Pool(pool.authority), amount },
        leaf_index,
        commitment,
    })
}

} // verus!
