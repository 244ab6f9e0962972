//! Fund movements that an accepted operation asks the host ledger to perform.
use vstd::prelude::*;
use crate::bytes::Address;

verus! {

/// Who holds funds on the ledger.
#[derive(Clone, Copy, Debug, PartialEq, Eq)]
pub enum Holder {
    /// An ordinary account, named by its owner.
    Wallet(Address),
    /// The custody of the shielded pool, named by the pool's authority.
    Pool(Address),
    /// The escrow of a stealth payment, named by its one-time address.
    Escrow(Address),
}

/// Moves `amount` units from `from` to `to`.
///
/// The host performs the movement in the same atomic unit as the state
/// change that produced it; if the movement fails, neither takes effect.
#[derive(Clone, Copy, Debug, PartialEq, Eq)]
pub struct Transfer {
    pub from: Holder,
    pub to: Holder,
    pub amount: u64,
}

} // verus!
