//! Stealth payments: escrows at one-time addresses, each claimable once.
use vstd::prelude::*;
use crate::bytes::{bytes32_eq, Address};
use crate::error::PrivacyError;
use crate::transfer::{Holder, Transfer};

verus! {

/// The escrow of one stealth payment; kept after its claim as an audit record.
#[derive(Clone, Copy, Debug, PartialEq, Eq)]
pub struct StealthAccount {
    pub sender: Address,
    /// The one-time identity that may claim the payment.
    pub stealth_address: Address,
    /// Lets the recipient derive the key of `stealth_address`.
    pub ephemeral_pubkey: [u8; 32],
    /// A byte of the shared secret's hash, for cheap scanning.
    pub view_tag: u8,
    pub amount: u64,
    pub claimed: bool,
    pub created_at: i64,
}

/// All stealth escrows, keyed by their one-time address.
pub struct StealthRegistry {
    accounts: Vec<StealthAccount>,
    by_address: Ghost<Map<Address, StealthAccount>>,
}

impl View for StealthRegistry {
    type V = Map<Address, StealthAccount>;

    closed spec fn view(&self) -> Map<Address, StealthAccount> {
        self.by_address@
    }
}

/// The first check that sending `amount` to `stealth_address` fails, if any.
pub open spec fn send_error(
    escrows: Map<Address, StealthAccount>,
    stealth_address: Address,
    amount: u64,
) -> Option<PrivacyError> {
    if escrows.contains_key(stealth_address) {
        Some(PrivacyError::StealthAddressInUse)
    } else if amount == 0 {
        Some(PrivacyError::InvalidAmount)
    } else {
        None
    }
}

/// The escrow an accepted send creates.
pub open spec fn new_escrow(
    sender: Address,
    stealth_address: Address,
    ephemeral_pubkey: [u8; 32],
    view_tag: u8,
    amount: u64,
    now: i64,
) -> StealthAccount {
    StealthAccount {
        sender,
        stealth_address,
        ephemeral_pubkey,
        view_tag,
        amount,
        claimed: false,
        created_at: now,
    }
}

/// The payout of an accepted claim: the whole escrowed amount, to the claimant.
pub open spec fn claim_payout(
    escrows: Map<Address, StealthAccount>,
    stealth_address: Address,
    claimer: Address,
) -> Transfer {
    Transfer {
        from: Holder::Escrow(stealth_address),
        to: Holder::Wallet(claimer),
        amount: escrows[stealth_address].amount,
    }
}

/// The escrows after an accepted claim: the escrow at `stealth_address`
/// is marked claimed and otherwise kept.
pub open spec fn after_claim(
    escrows: Map<Address, StealthAccount>,
    stealth_address: Address,
) -> Map<Address, StealthAccount> {
    escrows.insert(stealth_address, StealthAccount { claimed: true, ..escrows[stealth_address] })
}

/// The first check that a claim of `account` by `claimer` fails, if any.
pub open spec fn escrow_claim_error(account: StealthAccount, claimer: Address) -> Option<PrivacyError> {
    if account.claimed {
        Some(PrivacyError::AlreadyClaimed)
    } else if claimer != account.stealth_address {
        Some(PrivacyError::UnauthorizedClaim)
    } else if account.amount == 0 {
        Some(PrivacyError::InvalidAmount)
    } else {
        None
    }
}

/// The first check that a claim of `stealth_address` by `claimer` fails, if any.
pub open spec fn claim_error(
    escrows: Map<Address, StealthAccount>,
    stealth_address: Address,
    claimer: Address,
) -> Option<PrivacyError> {
    if !escrows.contains_key(stealth_address) {
        Some(PrivacyError::UnknownStealthAddress)
    } else {
        escrow_claim_error(escrows[stealth_address], claimer)
    }
}

/// Releases `account` to `claimer`, its one-time identity: the whole
/// escrowed amount moves, and the escrow is marked claimed and otherwise kept.
pub fn claim_escrow(account: &mut StealthAccount, claimer: Address) -> (r: Result<Transfer, PrivacyError>)
    ensures
        match escrow_claim_error(*old(account), claimer) {
            Some(e) => r == Err::<Transfer, PrivacyError>(e) && *final(account) == *old(account),
            None => r == Ok::<Transfer, PrivacyError>(
                Transfer {
                    from: Holder::Escrow(old(account).stealth_address),
                    to: Holder::Wallet(claimer),
                    amount: old(account).amount,
                },
            ) && *final(account) == (StealthAccount { claimed: true, ..*old(account) }),
        },
{
    if account.claimed {
        return Err(PrivacyError::AlreadyClaimed);
    }
    if !bytes32_eq(&claimer, &account.stealth_address) {
        return Err(PrivacyError::UnauthorizedClaim);
    }
    if account.amount == 0 {
        return Err(PrivacyError::InvalidAmount);
    }
    account.claimed = true;
    Ok(Transfer { from: Holder::Escrow(account.stealth_address), to: Holder::Wallet(claimer), amount: account.amount })
}

impl StealthRegistry {
    /// Holds of every registry: the list and the map agree, one entry per address.
    pub closed spec fn wf(&self) -> bool {
        &&& forall|i: int|
            0 <= i < self.accounts@.len() ==> {
                &&& #[trigger] self.by_address@.contains_key(self.accounts@[i].stealth_address)
                &&& self.by_address@[self.accounts@[i].stealth_address] == self.accounts@[i]
            }
        &&& forall|a: Address|
            #[trigger] self.by_address@.contains_key(a) ==> exists|i: int|
                0 <= i < self.accounts@.len() && self.accounts@[i].stealth_address == a
        &&& forall|i: int, j: int|
            0 <= i < j < self.accounts@.len() ==> self.accounts@[i].stealth_address
                != self.accounts@[j].stealth_address
    }

    /// An empty registry.
    pub fn new() -> (r: StealthRegistry)
        ensures
            r.wf(),
            r@ == Map::<Address, StealthAccount>::empty(),
    {
        StealthRegistry { accounts: Vec::new(), by_address: Ghost(Map::empty()) }
    }

    /// The position of the escrow at `stealth_address`, if there is one.
    fn position(&self, stealth_address: &Address) -> (r: Option<usize>)
        requires
            self.wf(),
        ensures
            match r {
                Some(i) => i < self.accounts@.len() && self.accounts@[i as int].stealth_address
                    == *stealth_address,
                None => !self@.contains_key(*stealth_address),
            },
    {
        let mut i: usize = 0;
        while i < self.accounts.len()
            invariant
                i <= self.accounts@.len(),
                forall|j: int| 0 <= j < i ==> self.accounts@[j].stealth_address != *stealth_address,
            decreases self.accounts@.len() - i,
        {
            if bytes32_eq(&self.accounts[i].stealth_address, stealth_address) {
                return Some(i);
            }
            i = i + 1;
        }
        None
    }

    /// The escrow at `stealth_address`, if there is one.
    pub fn get(&self, stealth_address: &Address) -> (r: Option<StealthAccount>)
        requires
            self.wf(),
        ensures
            r == (if self@.contains_key(*stealth_address) {
                Some(self@[*stealth_address])
            } else {
                None
            }),
    {
        match self.position(stealth_address) {
            Some(i) => Some(self.accounts[i]),
            None => None,
        }
    }

    /// Number of escrows, pending or claimed.
    pub fn len(&self) -> (n: usize)
        requires
            self.wf(),
        ensures
            n == self@.len(),
    {
        proof {
            self.lemma_len();
        }
        self.accounts.len()
    }

    proof fn lemma_len(&self)
        requires
            self.wf(),
        ensures
            self@.dom() == self.accounts@.map_values(|a: StealthAccount| a.stealth_address).to_set(),
            self@.len() == self.accounts@.len(),
    {
        let keys = self.accounts@.map_values(|a: StealthAccount| a.stealth_address);
        assert(self@.dom() =~= keys.to_set()) by {
            assert forall|a: Address| self@.dom().contains(a) implies keys.to_set().contains(a) by {
                let i = choose|i: int| 0 <= i < self.accounts@.len() && self.accounts@[i].stealth_address == a;
                assert(keys[i] == a);
            }
            assert forall|a: Address| keys.to_set().contains(a) implies self@.dom().contains(a) by {
                let i = choose|i: int| 0 <= i < keys.len() && keys[i] == a;
                assert(self.by_address@.contains_key(self.accounts@[i].stealth_address));
            }
        }
        assert(keys.no_duplicates());
        keys.unique_seq_to_set();
    }
}

/// Escrows `amount` from `sender` at the one-time `stealth_address`.
///
/// An escrow that already exists at the address is never overwritten.
pub fn send_stealth(
    escrows: &mut StealthRegistry,
    sender: Address,
    stealth_address: Address,
    ephemeral_pubkey: [u8; 32],
    view_tag: u8,
    amount: u64,
    now: i64,
) -> (r: Result<Transfer, PrivacyError>)
    requires
        old(escrows).wf(),
    ensures
        final(escrows).wf(),
        match send_error(old(escrows)@, stealth_address, amount) {
            Some(e) => r == Err::<Transfer, PrivacyError>(e) && final(escrows)@ == old(escrows)@,
            None => r == Ok::<Transfer, PrivacyError>(
                Transfer { from: Holder::Wallet(sender), to: Holder::Escrow(stealth_address), amount },
            ) && final(escrows)@ == old(escrows)@.insert(
                stealth_address,
                new_escrow(sender, stealth_address, ephemeral_pubkey, view_tag, amount, now),
            ),
        },
{
    if escrows.position(&stealth_address).is_some() {
        return Err(PrivacyError::StealthAddressInUse);
    }
    if amount == 0 {
        return Err(PrivacyError::InvalidAmount);
    }
    let account = StealthAccount {
        sender,
        stealth_address,
        ephemeral_pubkey,
        view_tag,
        amount,
        claimed: false,
        created_at: now,
    };
    let ghost old_accounts = escrows.accounts@;
    let ghost old_map = escrows.by_address@;
    proof {
        assert forall|i: int| 0 <= i < old_accounts.len() implies old_accounts[i].stealth_address
            != stealth_address by {
            assert(old_map.contains_key(old_accounts[i].stealth_address));
        }
    }
    escrows.accounts.push(account);
    escrows.by_address = Ghost(escrows.by_address@.insert(stealth_address, account));
    proof {
        let accounts = escrows.accounts@;
        let map = escrows.by_address@;
        assert(accounts == old_accounts.push(account));
        assert forall|i: int| 0 <= i < accounts.len() implies {
            &&& #[trigger] map.contains_key(accounts[i].stealth_address)
            &&& map[accounts[i].stealth_address] == accounts[i]
        } by {
            if i < old_accounts.len() {
                assert(accounts[i] == old_accounts[i]);
                assert(old_map.contains_key(old_accounts[i].stealth_address));
            }
        }
        assert forall|a: Address| #[trigger] map.contains_key(a) implies exists|i: int|
            0 <= i < accounts.len() && accounts[i].stealth_address == a by {
            if a == stealth_address {
                assert(accounts[old_accounts.len() as int].stealth_address == a);
            } else {
                assert(old_map.contains_key(a));
                let i = choose|i: int| 0 <= i < old_accounts.len() && old_accounts[i].stealth_address == a;
                assert(accounts[i].stealth_address == a);
            }
        }
    }
    Ok(Transfer { from: Holder::Wallet(sender), to: Holder::Escrow(stealth_address), amount })
}

/// Releases the escrow at `stealth_address` to `claimer`, its one-time identity.
///
/// The whole escrowed amount moves, and the escrow is marked claimed; it
/// stays in the registry with its amount as a record.
pub fn claim_stealth(
    escrows: &mut StealthRegistry,
    stealth_address: Address,
    claimer: Address,
) -> (r: Result<Transfer, PrivacyError>)
    requires
        old(escrows).wf(),
    ensures
        final(escrows).wf(),
        match claim_error(old(escrows)@, stealth_address, claimer) {
            Some(e) => r == Err::<Transfer, PrivacyError>(e) && final(escrows)@ == old(escrows)@,
            None => r == Ok::<Transfer, PrivacyError>(
                claim_payout(old(escrows)@, stealth_address, claimer),
            ) && final(escrows)@ == after_claim(old(escrows)@, stealth_address),
        },
{
    let i = match escrows.position(&stealth_address) {
        Some(i) => i,
        None => return Err(PrivacyError::UnknownStealthAddress),
    };
    let mut claimed = escrows.accounts[i];
    let account = claimed;
    let payout = claim_escrow(&mut claimed, claimer);
    if payout.is_err() {
        return payout;
    }
    let ghost old_accounts = escrows.accounts@;
    let ghost old_map = escrows.by_address@;
    proof {
        assert(old_map.contains_key(stealth_address));
        assert(old_map[stealth_address] == account);
    }
    escrows.accounts.set(i, claimed);
    escrows.by_address = Ghost(escrows.by_address@.insert(stealth_address, claimed));
    proof {
        let accounts = escrows.accounts@;
        let map = escrows.by_address@;
        assert(accounts == old_accounts.update(i as int, claimed));
        assert forall|j: int| 0 <= j < accounts.len() implies {
            &&& #[trigger] map.contains_key(accounts[j].stealth_address)
            &&& map[accounts[j].stealth_address] == accounts[j]
        } by {
            if j != i {
                assert(accounts[j] == old_accounts[j]);
                assert(old_map.contains_key(old_accounts[j].stealth_address));
                if j < i {
                    assert(old_accounts[j].stealth_address != old_accounts[i as int].stealth_address);
                } else {
                    assert(old_accounts[i as int].stealth_address != old_accounts[j].stealth_address);
                }
            }
        }
        assert forall|a: Address| #[trigger] map.contains_key(a) implies exists|j: int|
            0 <= j < accounts.len() && accounts[j].stealth_address == a by {
            if a == stealth_address {
                assert(accounts[i as int].stealth_address == a);
            } else {
                assert(old_map.contains_key(a));
                let j = choose|j: int| 0 <= j < old_accounts.len() && old_accounts[j].stealth_address == a;
                assert(accounts[j].stealth_address == a);
            }
        }
    }
    payout
}

} // verus!
