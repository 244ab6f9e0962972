use makora::vault::{
    agent_deposit, agent_withdraw, deposit, initialize, set_mode, withdraw, AgentMode, Vault, VaultError,
};

const OWNER: [u8; 32] = [1u8; 32];
const AGENT: [u8; 32] = [2u8; 32];
const STRANGER: [u8; 32] = [3u8; 32];

fn vault(mode: u8, position_pct: u8, reserve: u64) -> Vault {
    initialize(OWNER, AGENT, mode, position_pct, 100, 10, reserve, 50, 7).unwrap()
}

#[test]
fn initialize_checks_mode_and_limits() {
    let v = vault(1, 25, 1000);
    assert_eq!(v.mode, AgentMode::Auto);
    assert_eq!(v.risk_limits.max_position_size_pct, 25);
    assert_eq!(v.risk_limits.min_sol_reserve, 1000);
    assert_eq!(v.total_deposited, 0);
    assert_eq!(v.created_at, 7);
    assert_eq!(initialize(OWNER, AGENT, 2, 25, 100, 10, 0, 50, 0), Err(VaultError::InvalidAgentMode));
    assert_eq!(initialize(OWNER, AGENT, 0, 101, 100, 10, 0, 50, 0), Err(VaultError::InvalidRiskLimit));
    assert_eq!(initialize(OWNER, AGENT, 0, 100, 10_001, 10, 0, 50, 0), Err(VaultError::InvalidRiskLimit));
    assert_eq!(initialize(OWNER, AGENT, 0, 100, 10_000, 101, 0, 50, 0), Err(VaultError::InvalidRiskLimit));
    assert_eq!(initialize(OWNER, AGENT, 0, 100, 10_000, 100, 0, 101, 0), Err(VaultError::InvalidRiskLimit));
    assert!(initialize(OWNER, AGENT, 0, 100, 10_000, 100, 0, 100, 0).is_ok());
}

#[test]
fn agent_mode_codes() {
    assert_eq!(AgentMode::from_u8(0), Ok(AgentMode::Advisory));
    assert_eq!(AgentMode::from_u8(1), Ok(AgentMode::Auto));
    assert_eq!(AgentMode::from_u8(2), Err(VaultError::InvalidAgentMode));
}

#[test]
fn deposit_by_owner_only() {
    let mut v = vault(0, 50, 0);
    assert_eq!(deposit(&mut v, STRANGER, 10, 1), Err(VaultError::Unauthorized));
    assert_eq!(deposit(&mut v, OWNER, 0, 1), Err(VaultError::ZeroDeposit));
    assert_eq!(deposit(&mut v, OWNER, 500, 9), Ok(()));
    assert_eq!(v.total_deposited, 500);
    assert_eq!(v.last_action_at, 9);
    assert_eq!(deposit(&mut v, OWNER, u64::MAX, 10), Err(VaultError::ArithmeticOverflow));
    assert_eq!(v.total_deposited, 500);
}

#[test]
fn current_balance_saturates() {
    let mut v = vault(0, 50, 0);
    v.total_deposited = 100;
    v.total_withdrawn = 30;
    v.in_session_amount = 20;
    assert_eq!(v.current_balance(), 50);
    v.in_session_amount = 200;
    assert_eq!(v.current_balance(), 0);
    v.total_withdrawn = 300;
    assert_eq!(v.current_balance(), 0);
}

#[test]
fn withdraw_keeps_reserve_unless_emptied() {
    let mut v = vault(0, 50, 100);
    deposit(&mut v, OWNER, 1000, 1).unwrap();
    assert_eq!(withdraw(&mut v, STRANGER, 10, 50, 2), Err(VaultError::Unauthorized));
    assert_eq!(withdraw(&mut v, OWNER, 0, 50, 2), Err(VaultError::ZeroWithdraw));
    assert_eq!(withdraw(&mut v, OWNER, 1001, 50, 2), Err(VaultError::InsufficientBalance));
    // 1000 - 900 = 100 left, below 50 + 100.
    assert_eq!(withdraw(&mut v, OWNER, 900, 50, 2), Err(VaultError::InsufficientReserve));
    assert_eq!(withdraw(&mut v, OWNER, 850, 50, 2), Ok(()));
    assert_eq!(v.total_withdrawn, 850);
    assert_eq!(v.current_balance(), 150);
    assert_eq!(withdraw(&mut v, OWNER, 150, 50, 3), Ok(()));
    assert_eq!(v.current_balance(), 0);
    assert_eq!(withdraw(&mut v, OWNER, 1, u64::MAX, 3), Err(VaultError::InsufficientBalance));
}

#[test]
fn withdraw_reserve_overflow() {
    let mut v = vault(0, 50, u64::MAX);
    deposit(&mut v, OWNER, 10, 1).unwrap();
    assert_eq!(withdraw(&mut v, OWNER, 5, 1, 2), Err(VaultError::ArithmeticOverflow));
}

#[test]
fn agent_withdraw_within_limits() {
    let mut v = vault(1, 25, 100);
    deposit(&mut v, OWNER, 1000, 1).unwrap();
    assert_eq!(agent_withdraw(&mut v, STRANGER, 10, 50, 2), Err(VaultError::UnauthorizedAgent));
    assert_eq!(agent_withdraw(&mut v, AGENT, 0, 50, 2), Err(VaultError::ZeroWithdraw));
    // 25% of 1000.
    assert_eq!(agent_withdraw(&mut v, AGENT, 251, 50, 2), Err(VaultError::ExceedsMaxPosition));
    assert_eq!(agent_withdraw(&mut v, AGENT, 851, 50, 2), Err(VaultError::InsufficientBalance));
    assert_eq!(agent_withdraw(&mut v, AGENT, 250, 50, 4), Ok(()));
    assert_eq!(v.in_session_amount, 250);
    assert_eq!(v.current_balance(), 750);
    assert_eq!(v.last_action_at, 4);
}

#[test]
fn agent_withdraw_needs_auto_mode() {
    let mut v = vault(0, 25, 0);
    deposit(&mut v, OWNER, 1000, 1).unwrap();
    assert_eq!(agent_withdraw(&mut v, AGENT, 10, 0, 2), Err(VaultError::NotAutoMode));
    assert_eq!(set_mode(&mut v, AGENT, 1, 3), Err(VaultError::Unauthorized));
    assert_eq!(set_mode(&mut v, OWNER, 7, 3), Err(VaultError::InvalidAgentMode));
    assert_eq!(set_mode(&mut v, OWNER, 1, 3), Ok(()));
    assert_eq!(v.mode, AgentMode::Auto);
    assert_eq!(agent_withdraw(&mut v, AGENT, 10, 0, 4), Ok(()));
}

#[test]
fn agent_deposit_returns_session_funds() {
    let mut v = vault(1, 50, 0);
    deposit(&mut v, OWNER, 1000, 1).unwrap();
    agent_withdraw(&mut v, AGENT, 300, 0, 2).unwrap();
    assert_eq!(agent_deposit(&mut v, STRANGER, 100, 3), Err(VaultError::UnauthorizedAgent));
    assert_eq!(agent_deposit(&mut v, AGENT, 0, 3), Err(VaultError::ZeroDeposit));
    assert_eq!(agent_deposit(&mut v, AGENT, 100, 3), Ok(()));
    assert_eq!(v.in_session_amount, 200);
    assert_eq!(agent_deposit(&mut v, AGENT, 500, 4), Ok(()));
    assert_eq!(v.in_session_amount, 0);
    assert_eq!(v.current_balance(), 1000);
}
