//! A per-user vault: deposits and withdrawals by its owner, and session
//! withdrawals by an agent within the vault's risk limits.
use vstd::prelude::*;
use crate::bytes::{bytes32_eq, Address};

verus! {

/// Why a vault operation was refused. Every refusal changes nothing.
#[derive(Clone, Copy, Debug, PartialEq, Eq, Structural)]
pub enum VaultError {
    ZeroDeposit,
    ZeroWithdraw,
    InsufficientBalance,
    ArithmeticOverflow,
    InvalidAgentMode,
    InvalidRiskLimit,
    Unauthorized,
    AlreadyInitialized,
    InsufficientReserve,
    UnauthorizedAgent,
    NotAutoMode,
    ExceedsMaxPosition,
    SessionAmountUnderflow,
}

/// How the agent may act on the vault.
#[derive(Clone, Copy, Debug, PartialEq, Eq, Structural)]
pub enum AgentMode {
    /// The agent only suggests; the owner confirms.
    Advisory,
    /// The agent executes within the risk limits.
    Auto,
}

/// The mode with code `val`: 0 advisory, 1 auto.
pub open spec fn agent_mode_of(val: u8) -> Option<AgentMode> {
    if val == 0 {
        Some(AgentMode::Advisory)
    } else if val == 1 {
        Some(AgentMode::Auto)
    } else {
        None
    }
}

impl AgentMode {
    pub fn from_u8(val: u8) -> (r: Result<AgentMode, VaultError>)
        ensures
            r == (match agent_mode_of(val) {
                Some(m) => Ok::<AgentMode, VaultError>(m),
                None => Err(VaultError::InvalidAgentMode),
            }),
    {
        match val {
            0 => Ok(AgentMode::Advisory),
            1 => Ok(AgentMode::Auto),
            _ => Err(VaultError::InvalidAgentMode),
        }
    }
}

/// Limits the agent is held to; percentages are of the vault's balance.
#[derive(Clone, Copy, Debug, PartialEq, Eq, Structural)]
pub struct RiskLimits {
    pub max_position_size_pct: u8,
    pub max_slippage_bps: u16,
    pub max_daily_loss_pct: u8,
    /// Units kept in the vault, beyond the account's rent reserve.
    pub min_sol_reserve: u64,
    pub max_protocol_exposure_pct: u8,
}

#[derive(Clone, Copy, Debug, PartialEq, Eq)]
pub struct Vault {
    pub owner: Address,
    pub agent_authority: Address,
    /// Units deposited over the vault's life.
    pub total_deposited: u64,
    /// Units withdrawn by the owner over the vault's life.
    pub total_withdrawn: u64,
    pub mode: AgentMode,
    pub risk_limits: RiskLimits,
    pub created_at: i64,
    pub last_action_at: i64,
    /// Units the agent has out in sessions.
    pub in_session_amount: u64,
}

/// `a - b`, or zero where `b` exceeds `a`.
pub open spec fn sat_sub(a: int, b: int) -> int {
    if a >= b {
        a - b
    } else {
        0
    }
}

/// What the vault holds for new operations: deposits less withdrawals
/// and less what is out in sessions, never below zero.
pub open spec fn available(v: Vault) -> int {
    sat_sub(sat_sub(v.total_deposited as int, v.total_withdrawn as int), v.in_session_amount as int)
}

impl Vault {
    pub fn current_balance(&self) -> (r: u64)
        ensures
            r == available(*self),
    {
        self.total_deposited.saturating_sub(self.total_withdrawn).saturating_sub(self.in_session_amount)
    }
}

/// The first check that creating a vault with these settings fails, if any.
pub open spec fn initialize_error(
    mode: u8,
    max_position_size_pct: u8,
    max_slippage_bps: u16,
    max_daily_loss_pct: u8,
    max_protocol_exposure_pct: u8,
) -> Option<VaultError> {
    if agent_mode_of(mode) is None {
        Some(VaultError::InvalidAgentMode)
    } else if max_position_size_pct > 100 || max_slippage_bps > 10_000 || max_daily_loss_pct > 100
        || max_protocol_exposure_pct > 100 {
        Some(VaultError::InvalidRiskLimit)
    } else {
        None
    }
}

/// Creates the vault of `owner`, empty, with the given agent and limits.
pub fn initialize(
    owner: Address,
    agent_authority: Address,
    mode: u8,
    max_position_size_pct: u8,
    max_slippage_bps: u16,
    max_daily_loss_pct: u8,
    min_sol_reserve: u64,
    max_protocol_exposure_pct: u8,
    now: i64,
) -> (r: Result<Vault, VaultError>)
    ensures
        match initialize_error(mode, max_position_size_pct, max_slippage_bps, max_daily_loss_pct, max_protocol_exposure_pct) {
            Some(e) => r == Err::<Vault, VaultError>(e),
            None => r == Ok::<Vault, VaultError>(
                Vault {
                    owner,
                    agent_authority,
                    total_deposited: 0,
                    total_withdrawn: 0,
                    mode: agent_mode_of(mode).unwrap(),
                    risk_limits: RiskLimits {
                        max_position_size_pct,
                        max_slippage_bps,
                        max_daily_loss_pct,
                        min_sol_reserve,
                        max_protocol_exposure_pct,
                    },
                    created_at: now,
                    last_action_at: now,
                    in_session_amount: 0,
                },
            ),
        },
{
    let agent_mode = AgentMode::from_u8(mode)?;
    if max_position_size_pct > 100 || max_slippage_bps > 10_000 || max_daily_loss_pct > 100
        || max_protocol_exposure_pct > 100 {
        return Err(VaultError::InvalidRiskLimit);
    }
    Ok(Vault {
        owner,
        agent_authority,
        total_deposited: 0,
        total_withdrawn: 0,
        mode: agent_mode,
        risk_limits: RiskLimits {
            max_position_size_pct,
            max_slippage_bps,
            max_daily_loss_pct,
            min_sol_reserve,
            max_protocol_exposure_pct,
        },
        created_at: now,
        last_action_at: now,
        in_session_amount: 0,
    })
}

/// The first check that a deposit of `amount` by `signer` fails, if any.
pub open spec fn deposit_error(v: Vault, signer: Address, amount: u64) -> Option<VaultError> {
    if signer != v.owner {
        Some(VaultError::Unauthorized)
    } else if amount == 0 {
        Some(VaultError::ZeroDeposit)
    } else if v.total_deposited + amount > u64::MAX {
        Some(VaultError::ArithmeticOverflow)
    } else {
        None
    }
}

/// Records a deposit of `amount` by the owner.
pub fn deposit(vault: &mut Vault, signer: Address, amount: u64, now: i64) -> (r: Result<(), VaultError>)
    ensures
        match deposit_error(*old(vault), signer, amount) {
            Some(e) => r == Err::<(), VaultError>(e) && *final(vault) == *old(vault),
            None => r == Ok::<(), VaultError>(()) && *final(vault) == (Vault {
                total_deposited: (old(vault).total_deposited + amount) as u64,
                last_action_at: now,
                ..*old(vault)
            }),
        },
{
    if !bytes32_eq(&signer, &vault.owner) {
        return Err(VaultError::Unauthorized);
    }
    if amount == 0 {
        return Err(VaultError::ZeroDeposit);
    }
    vault.total_deposited = match vault.total_deposited.checked_add(amount) {
        Some(t) => t,
        None => return Err(VaultError::ArithmeticOverflow),
    };
    vault.last_action_at = now;
    Ok(())
}

/// The first check that a withdrawal of `amount` by `signer` fails, if
/// any; `min_rent` is the account's rent-exempt minimum.
pub open spec fn withdraw_error(v: Vault, signer: Address, amount: u64, min_rent: u64) -> Option<VaultError> {
    let remaining = available(v) - amount;
    let total_min = min_rent + v.risk_limits.min_sol_reserve;
    if signer != v.owner {
        Some(VaultError::Unauthorized)
    } else if amount == 0 {
        Some(VaultError::ZeroWithdraw)
    } else if amount > available(v) {
        Some(VaultError::InsufficientBalance)
    } else if total_min > u64::MAX {
        Some(VaultError::ArithmeticOverflow)
    } else if remaining > 0 && remaining < total_min {
        Some(VaultError::InsufficientReserve)
    } else if v.total_withdrawn + amount > u64::MAX {
        Some(VaultError::ArithmeticOverflow)
    } else {
        None
    }
}

/// Records a withdrawal of `amount` by the owner. What stays must cover
/// the rent minimum and the reserve, unless nothing stays.
pub fn withdraw(vault: &mut Vault, signer: Address, amount: u64, min_rent: u64, now: i64) -> (r: Result<(), VaultError>)
    ensures
        match withdraw_error(*old(vault), signer, amount, min_rent) {
            Some(e) => r == Err::<(), VaultError>(e) && *final(vault) == *old(vault),
            None => r == Ok::<(), VaultError>(()) && *final(vault) == (Vault {
                total_withdrawn: (old(vault).total_withdrawn + amount) as u64,
                last_action_at: now,
                ..*old(vault)
            }),
        },
{
    if !bytes32_eq(&signer, &vault.owner) {
        return Err(VaultError::Unauthorized);
    }
    if amount == 0 {
        return Err(VaultError::ZeroWithdraw);
    }
    let current = vault.current_balance();
    if amount > current {
        return Err(VaultError::InsufficientBalance);
    }
    let remaining = current - amount;
    let total_min = match min_rent.checked_add(vault.risk_limits.min_sol_reserve) {
        Some(t) => t,
        None => return Err(VaultError::ArithmeticOverflow),
    };
    if remaining > 0 && remaining < total_min {
        return Err(VaultError::InsufficientReserve);
    }
    vault.total_withdrawn = match vault.total_withdrawn.checked_add(amount) {
        Some(t) => t,
        None => return Err(VaultError::ArithmeticOverflow),
    };
    vault.last_action_at = now;
    Ok(())
}

/// The most the agent may take in one session withdrawal, by the position
/// limit: `max_position_size_pct` percent of deposits less withdrawals.
pub open spec fn max_position(v: Vault) -> int {
    sat_sub(v.total_deposited as int, v.total_withdrawn as int) * v.risk_limits.max_position_size_pct / 100
}

/// The first check that a session withdrawal of `amount` by `agent` fails, if any.
pub open spec fn agent_withdraw_error(v: Vault, agent: Address, amount: u64, min_rent: u64) -> Option<VaultError> {
    let total_min = min_rent + v.risk_limits.min_sol_reserve;
    let balance = sat_sub(v.total_deposited as int, v.total_withdrawn as int);
    if agent != v.agent_authority {
        Some(VaultError::UnauthorizedAgent)
    } else if amount == 0 {
        Some(VaultError::ZeroWithdraw)
    } else if v.mode != AgentMode::Auto {
        Some(VaultError::NotAutoMode)
    } else if total_min > u64::MAX {
        Some(VaultError::ArithmeticOverflow)
    } else if amount > sat_sub(available(v), total_min) {
        Some(VaultError::InsufficientBalance)
    } else if balance > 0 && balance * v.risk_limits.max_position_size_pct > u64::MAX {
        Some(VaultError::ArithmeticOverflow)
    } else if balance > 0 && amount > max_position(v) {
        Some(VaultError::ExceedsMaxPosition)
    } else if v.in_session_amount + amount > u64::MAX {
        Some(VaultError::ArithmeticOverflow)
    } else {
        None
    }
}

/// Lets the agent take `amount` out to a session wallet, in auto mode,
/// within the reserve and the position limit.
pub fn agent_withdraw(
    vault: &mut Vault,
    agent: Address,
    amount: u64,
    min_rent: u64,
    now: i64,
) -> (r: Result<(), VaultError>)
    ensures
        match agent_withdraw_error(*old(vault), agent, amount, min_rent) {
            Some(e) => r == Err::<(), VaultError>(e) && *final(vault) == *old(vault),
            None => r == Ok::<(), VaultError>(()) && *final(vault) == (Vault {
                in_session_amount: (old(vault).in_session_amount + amount) as u64,
                last_action_at: now,
                ..*old(vault)
            }),
        },
{
    if !bytes32_eq(&agent, &vault.agent_authority) {
        return Err(VaultError::UnauthorizedAgent);
    }
    if amount == 0 {
        return Err(VaultError::ZeroWithdraw);
    }
    if vault.mode != AgentMode::Auto {
        return Err(VaultError::NotAutoMode);
    }
    let available = vault.current_balance();
    let total_min = match min_rent.checked_add(vault.risk_limits.min_sol_reserve) {
        Some(t) => t,
        None => return Err(VaultError::ArithmeticOverflow),
    };
    if amount > available.saturating_sub(total_min) {
        return Err(VaultError::InsufficientBalance);
    }
    let total_balance = vault.total_deposited.saturating_sub(vault.total_withdrawn);
    if total_balance > 0 {
        let scaled = match total_balance.checked_mul(vault.risk_limits.max_position_size_pct as u64) {
            Some(s) => s,
            None => return Err(VaultError::ArithmeticOverflow),
        };
        if amount > scaled / 100 {
            return Err(VaultError::ExceedsMaxPosition);
        }
    }
    vault.in_session_amount = match vault.in_session_amount.checked_add(amount) {
        Some(s) => s,
        None => return Err(VaultError::ArithmeticOverflow),
    };
    vault.last_action_at = now;
    Ok(())
}

/// Lets the agent return `amount` from a session wallet. What comes back
/// beyond what was out counts as profit: the amount out never goes below zero.
pub fn agent_deposit(vault: &mut Vault, agent: Address, amount: u64, now: i64) -> (r: Result<(), VaultError>)
    ensures
        agent != old(vault).agent_authority ==> r == Err::<(), VaultError>(VaultError::UnauthorizedAgent)
            && *final(vault) == *old(vault),
        agent == old(vault).agent_authority && amount == 0 ==> r == Err::<(), VaultError>(
            VaultError::ZeroDeposit,
        ) && *final(vault) == *old(vault),
        agent == old(vault).agent_authority && amount > 0 ==> r == Ok::<(), VaultError>(()) && *final(vault)
            == (Vault {
            in_session_amount: sat_sub(old(vault).in_session_amount as int, amount as int) as u64,
            last_action_at: now,
            ..*old(vault)
        }),
{
    if !bytes32_eq(&agent, &vault.agent_authority) {
        return Err(VaultError::UnauthorizedAgent);
    }
    if amount == 0 {
        return Err(VaultError::ZeroDeposit);
    }
    vault.in_session_amount = vault.in_session_amount.saturating_sub(amount);
    vault.last_action_at = now;
    Ok(())
}

/// Sets the agent's mode; only the owner may.
pub fn set_mode(vault: &mut Vault, signer: Address, mode: u8, now: i64) -> (r: Result<(), VaultError>)
    ensures
        signer != old(vault).owner ==> r == Err::<(), VaultError>(VaultError::Unauthorized) && *final(vault)
            == *old(vault),
        signer == old(vault).owner && agent_mode_of(mode) is None ==> r == Err::<(), VaultError>(
            VaultError::InvalidAgentMode,
        ) && *final(vault) == *old(vault),
        signer == old(vault).owner && agent_mode_of(mode) is Some ==> r == Ok::<(), VaultError>(())
            && *final(vault) == (Vault { mode: agent_mode_of(mode).unwrap(), last_action_at: now, ..*old(vault) }),
{
    if !bytes32_eq(&signer, &vault.owner) {
        return Err(VaultError::Unauthorized);
    }
    let new_mode = AgentMode::from_u8(mode)?;
    vault.mode = new_mode;
    vault.last_action_at = now;
    Ok(())
}

} // verus!
