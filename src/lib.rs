//! Verified core of a privacy-preserving value-transfer protocol on a shared
//! ledger, and of the programs around it.
//!
//! - `pool`, `withdraw`, `nullifier`, `zk`: a shielded pool that takes
//!   deposits under opaque commitments and releases funds only against a
//!   proof that a verifier accepts and a nullifier not spent before.
//! - `stealth`: escrowed payments to one-time addresses, each claimable once.
//! - `laws`: properties of these operations across calls.
//! - `vault`, `strategy`, `audit`: an agent's vault, its strategy settings,
//!   and the ring buffer of its logged actions.
//! - `confidential`: an order book of encrypted swap orders.
//!
//! Every operation is a function from state and plain inputs to the next
//! state and a result; a refused operation changes nothing. The host ledger
//! supplies the time, stores the records, and performs the fund movements
//! (`transfer::Transfer`) that accepted operations return.
pub mod audit;
pub mod bytes;
pub mod confidential;
pub mod error;
pub mod laws;
pub mod nullifier;
pub mod pool;
pub mod stealth;
pub mod strategy;
pub mod text;
pub mod transfer;
pub mod vault;
pub mod withdraw;
pub mod zk;
