use makora::error::PrivacyError;
use makora::stealth::{claim_stealth, send_stealth, StealthRegistry};
use makora::transfer::{Holder, Transfer};

const SENDER: [u8; 32] = [1u8; 32];
const STEALTH: [u8; 32] = [2u8; 32];
const EPHEMERAL: [u8; 32] = [3u8; 32];

#[test]
fn send_five_then_claim_then_claim_again() {
    let mut escrows = StealthRegistry::new();
    let sent = send_stealth(&mut escrows, SENDER, STEALTH, EPHEMERAL, 0xab, 5, 100);
    assert_eq!(sent, Ok(Transfer { from: Holder::Wallet(SENDER), to: Holder::Escrow(STEALTH), amount: 5 }));
    let account = escrows.get(&STEALTH).unwrap();
    assert_eq!(account.amount, 5);
    assert!(!account.claimed);
    assert_eq!(account.view_tag, 0xab);
    assert_eq!(account.ephemeral_pubkey, EPHEMERAL);
    assert_eq!(account.sender, SENDER);
    assert_eq!(account.created_at, 100);

    let claimed = claim_stealth(&mut escrows, STEALTH, STEALTH);
    assert_eq!(claimed, Ok(Transfer { from: Holder::Escrow(STEALTH), to: Holder::Wallet(STEALTH), amount: 5 }));
    let account = escrows.get(&STEALTH).unwrap();
    assert!(account.claimed);
    assert_eq!(account.amount, 5);

    assert_eq!(claim_stealth(&mut escrows, STEALTH, STEALTH), Err(PrivacyError::AlreadyClaimed));
    assert_eq!(escrows.get(&STEALTH).unwrap(), account);
    assert_eq!(escrows.len(), 1);
}

#[test]
fn send_to_taken_address_fails() {
    let mut escrows = StealthRegistry::new();
    send_stealth(&mut escrows, SENDER, STEALTH, EPHEMERAL, 1, 10, 0).unwrap();
    let r = send_stealth(&mut escrows, [9u8; 32], STEALTH, [4u8; 32], 2, 20, 1);
    assert_eq!(r, Err(PrivacyError::StealthAddressInUse));
    assert_eq!(escrows.get(&STEALTH).unwrap().amount, 10);
    assert_eq!(escrows.len(), 1);
}

#[test]
fn send_zero_fails() {
    let mut escrows = StealthRegistry::new();
    assert_eq!(send_stealth(&mut escrows, SENDER, STEALTH, EPHEMERAL, 1, 0, 0), Err(PrivacyError::InvalidAmount));
    assert_eq!(escrows.get(&STEALTH), None);
    assert_eq!(escrows.len(), 0);
}

#[test]
fn claim_by_other_identity_fails() {
    let mut escrows = StealthRegistry::new();
    send_stealth(&mut escrows, SENDER, STEALTH, EPHEMERAL, 1, 10, 0).unwrap();
    assert_eq!(claim_stealth(&mut escrows, STEALTH, SENDER), Err(PrivacyError::UnauthorizedClaim));
    assert!(!escrows.get(&STEALTH).unwrap().claimed);
    assert!(claim_stealth(&mut escrows, STEALTH, STEALTH).is_ok());
}

#[test]
fn claim_of_unknown_address_fails() {
    let mut escrows = StealthRegistry::new();
    assert_eq!(claim_stealth(&mut escrows, STEALTH, STEALTH), Err(PrivacyError::UnknownStealthAddress));
}

#[test]
fn escrows_are_independent() {
    let mut escrows = StealthRegistry::new();
    send_stealth(&mut escrows, SENDER, STEALTH, EPHEMERAL, 1, 10, 0).unwrap();
    send_stealth(&mut escrows, SENDER, [5u8; 32], EPHEMERAL, 1, 20, 0).unwrap();
    assert_eq!(escrows.len(), 2);
    let r = claim_stealth(&mut escrows, [5u8; 32], [5u8; 32]).unwrap();
    assert_eq!(r.amount, 20);
    assert!(!escrows.get(&STEALTH).unwrap().claimed);
    assert_eq!(claim_stealth(&mut escrows, STEALTH, STEALTH).unwrap().amount, 10);
}
