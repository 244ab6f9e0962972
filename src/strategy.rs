//! Strategy configuration of an agent: the strategy, the target allocation,
//! who may change them, and the logging of the agent's actions.
use vstd::prelude::*;
use vstd::string::StringSliceAdditionalSpecFns;
use crate::audit::{AuditEntry, AuditTrail};
use crate::bytes::{bytes32_eq, Address};
use crate::text::{field_text, pad_bytes, padded, stored_text, utf8_lossy};

verus! {

broadcast use vstd::array::group_array_axioms;

/// Number of allocation slots.
pub const MAX_ALLOCATIONS: usize = 5;

/// Why a strategy operation was refused. Every refusal changes nothing.
#[derive(Clone, Copy, Debug, PartialEq, Eq, Structural)]
pub enum StrategyError {
    InvalidStrategyType,
    InvalidAllocationSum,
    InvalidAllocationEntry,
    UnauthorizedPermissionsUpdate,
    UnauthorizedStrategyUpdate,
    UnauthorizedLogAction,
    InvalidAgentMode,
    AuditTrailFull,
    DescriptionTooLong,
    ActionTypeTooLong,
    ProtocolTooLong,
}

#[derive(Clone, Copy, Debug, PartialEq, Eq, Structural)]
pub enum StrategyType {
    Yield,
    Trading,
    Rebalance,
    Liquidity,
}

/// The strategy with code `val`: 0 yield, 1 trading, 2 rebalance, 3 liquidity.
pub open spec fn strategy_type_of(val: u8) -> Option<StrategyType> {
    if val == 0 {
        Some(StrategyType::Yield)
    } else if val == 1 {
        Some(StrategyType::Trading)
    } else if val == 2 {
        Some(StrategyType::Rebalance)
    } else if val == 3 {
        Some(StrategyType::Liquidity)
    } else {
        None
    }
}

impl Default for StrategyType {
    fn default() -> (r: StrategyType)
        ensures
            r == StrategyType::Yield,
    {
        StrategyType::Yield
    }
}

impl StrategyType {
    pub fn from_u8(val: u8) -> (r: Result<StrategyType, ()>)
        ensures
            r == (match strategy_type_of(val) {
                Some(t) => Ok::<StrategyType, ()>(t),
                None => Err(()),
            }),
    {
        match val {
            0 => Ok(StrategyType::Yield),
            1 => Ok(StrategyType::Trading),
            2 => Ok(StrategyType::Rebalance),
            3 => Ok(StrategyType::Liquidity),
            _ => Err(()),
        }
    }
}

/// How the agent may act: only suggest, or execute.
#[derive(Clone, Copy, Debug, PartialEq, Eq, Structural)]
pub enum AgentMode {
    Advisory,
    Auto,
}

/// The mode with code `val`: 0 advisory, 1 auto.
pub open spec fn agent_mode_of(val: u8) -> Option<AgentMode> {
    if val == 0 {
        Some(AgentMode::Advisory)
    } else if val == 1 {
        Some(AgentMode::Auto)
    } else {
        None
    }
}

impl Default for AgentMode {
    fn default() -> (r: AgentMode)
        ensures
            r == AgentMode::Advisory,
    {
        AgentMode::Advisory
    }
}

impl AgentMode {
    pub fn from_u8(val: u8) -> (r: Result<AgentMode, ()>)
        ensures
            r == (match agent_mode_of(val) {
                Some(m) => Ok::<AgentMode, ()>(m),
                None => Err(()),
            }),
    {
        match val {
            0 => Ok(AgentMode::Advisory),
            1 => Ok(AgentMode::Auto),
            _ => Err(()),
        }
    }
}

/// The target share of one token: its symbol in eight zero-padded bytes
/// and a percentage.
#[derive(Clone, Copy, Debug)]
pub struct AllocationTarget {
    pub symbol: [u8; 8],
    pub target_pct: u8,
}

/// Whether `t` is an unused slot: zero symbol and zero share.
pub open spec fn is_blank_target(t: AllocationTarget) -> bool {
    &&& t.target_pct == 0
    &&& forall|i: int| 0 <= i < 8 ==> t.symbol[i] == 0
}

impl AllocationTarget {
    pub fn new(symbol: &str, target_pct: u8) -> (t: AllocationTarget)
        ensures
            t.symbol@ == padded(symbol.spec_bytes(), 8),
            t.target_pct == target_pct,
    {
        AllocationTarget { symbol: pad_bytes(symbol), target_pct }
    }

    /// An unused slot.
    pub fn blank() -> (t: AllocationTarget)
        ensures
            is_blank_target(t),
    {
        AllocationTarget { symbol: [0u8; 8], target_pct: 0 }
    }

    pub fn symbol_str(&self) -> (r: String)
        ensures
            r@ == utf8_lossy(stored_text(self.symbol@)),
    {
        field_text(self.symbol.as_slice())
    }

    /// Whether the slot looks unused: zero share and an empty symbol.
    pub fn is_empty(&self) -> (r: bool)
        ensures
            r == (self.target_pct == 0 && self.symbol[0] == 0),
    {
        self.target_pct == 0 && self.symbol[0] == 0
    }
}

/// The strategy configuration of one owner.
#[derive(Clone, Copy, Debug)]
pub struct StrategyAccount {
    pub owner: Address,
    /// The agent's signing identity.
    pub agent_authority: Address,
    pub strategy_type: StrategyType,
    pub mode: AgentMode,
    /// Least confidence, out of 100, for the agent to propose an action.
    pub confidence_threshold: u8,
    pub max_actions_per_cycle: u8,
    pub target_allocation: [AllocationTarget; MAX_ALLOCATIONS],
    /// How many of the slots of `target_allocation` are in use.
    pub allocation_count: u8,
    /// Strategy updates so far, held at `u64::MAX`.
    pub total_cycles: u64,
    /// Executed actions logged so far, held at `u64::MAX`.
    pub total_actions_executed: u64,
    pub last_cycle_at: i64,
    pub created_at: i64,
}

impl StrategyAccount {
    /// Whether `signer` may update the strategy or log actions: the owner or the agent.
    pub fn is_authorized(&self, signer: &Address) -> (r: bool)
        ensures
            r == (*signer == self.owner || *signer == self.agent_authority),
    {
        bytes32_eq(signer, &self.owner) || bytes32_eq(signer, &self.agent_authority)
    }
}

/// Sum of the percentages.
pub open spec fn pct_sum(pcts: Seq<u8>) -> int
    decreases pcts.len(),
{
    if pcts.len() == 0 {
        0
    } else {
        pct_sum(pcts.drop_last()) + pcts.last()
    }
}

/// The first check that an allocation fails, if any: as many symbols as
/// percentages, at most five, summing to 100 unless empty, each at most 100.
pub open spec fn allocation_error(symbols: Seq<[u8; 8]>, pcts: Seq<u8>) -> Option<StrategyError> {
    if symbols.len() != pcts.len() {
        Some(StrategyError::InvalidAllocationSum)
    } else if symbols.len() > MAX_ALLOCATIONS {
        Some(StrategyError::InvalidAllocationEntry)
    } else if pcts.len() > 0 && pct_sum(pcts) != 100 {
        Some(StrategyError::InvalidAllocationSum)
    } else if exists|i: int| 0 <= i < pcts.len() && pcts[i] > 100 {
        Some(StrategyError::InvalidAllocationEntry)
    } else {
        None
    }
}

/// Whether `slots` holds the allocation given by `symbols` and `pcts`,
/// in order, with the remaining slots unused.
pub open spec fn holds_allocation(slots: Seq<AllocationTarget>, symbols: Seq<[u8; 8]>, pcts: Seq<u8>) -> bool {
    &&& slots.len() == MAX_ALLOCATIONS
    &&& forall|i: int|
        0 <= i < symbols.len() ==> #[trigger] slots[i].symbol == symbols[i] && slots[i].target_pct == pcts[i]
    &&& forall|i: int| symbols.len() <= i < MAX_ALLOCATIONS ==> is_blank_target(#[trigger] slots[i])
}

proof fn lemma_pct_sum_bound(pcts: Seq<u8>)
    ensures
        0 <= pct_sum(pcts) <= 255 * pcts.len(),
    decreases pcts.len(),
{
    if pcts.len() > 0 {
        lemma_pct_sum_bound(pcts.drop_last());
    }
}

/// Checks an allocation and lays it out in the five slots.
fn build_allocation(symbols: &Vec<[u8; 8]>, pcts: &Vec<u8>) -> (r: Result<[AllocationTarget; MAX_ALLOCATIONS], StrategyError>)
    ensures
        match allocation_error(symbols@, pcts@) {
            Some(e) => r == Err::<[AllocationTarget; MAX_ALLOCATIONS], StrategyError>(e),
            None => r is Ok && holds_allocation(r->Ok_0@, symbols@, pcts@),
        },
{
    if symbols.len() != pcts.len() {
        return Err(StrategyError::InvalidAllocationSum);
    }
    if symbols.len() > MAX_ALLOCATIONS {
        return Err(StrategyError::InvalidAllocationEntry);
    }
    let mut sum: u16 = 0;
    let mut i: usize = 0;
    while i < pcts.len()
        invariant
            pcts@.len() <= MAX_ALLOCATIONS,
            i <= pcts@.len(),
            sum == pct_sum(pcts@.subrange(0, i as int)),
        decreases pcts@.len() - i,
    {
        proof {
            assert(pcts@.subrange(0, i + 1).drop_last() =~= pcts@.subrange(0, i as int));
            lemma_pct_sum_bound(pcts@.subrange(0, i as int));
        }
        sum = sum + pcts[i] as u16;
        i = i + 1;
    }
    assert(pcts@.subrange(0, pcts@.len() as int) =~= pcts@);
    if pcts.len() > 0 && sum != 100 {
        return Err(StrategyError::InvalidAllocationSum);
    }
    let mut i: usize = 0;
    while i < pcts.len()
        invariant
            i <= pcts@.len(),
            symbols@.len() == pcts@.len() <= MAX_ALLOCATIONS,
            pcts@.len() > 0 ==> pct_sum(pcts@) == 100,
            forall|j: int| 0 <= j < i ==> pcts@[j] <= 100,
        decreases pcts@.len() - i,
    {
        if pcts[i] > 100 {
            assert(pcts@[i as int] > 100);
            return Err(StrategyError::InvalidAllocationEntry);
        }
        i = i + 1;
    }
    let mut slots = [AllocationTarget::blank(); MAX_ALLOCATIONS];
    let mut i: usize = 0;
    while i < symbols.len()
        invariant
            symbols@.len() == pcts@.len() <= MAX_ALLOCATIONS,
            i <= symbols@.len(),
            forall|j: int| 0 <= j < i ==> #[trigger] slots@[j].symbol == symbols@[j] && slots@[j].target_pct == pcts@[j],
            forall|j: int| i <= j < MAX_ALLOCATIONS ==> is_blank_target(#[trigger] slots@[j]),
        decreases symbols@.len() - i,
    {
        slots[i] = AllocationTarget { symbol: symbols[i], target_pct: pcts[i] };
        i = i + 1;
    }
    assert(holds_allocation(slots@, symbols@, pcts@));
    Ok(slots)
}

/// The strategy account and empty audit trail that `initialize` creates.
pub open spec fn initialized(
    account: StrategyAccount,
    trail: AuditTrail,
    owner: Address,
    agent_authority: Address,
    strategy_type: StrategyType,
    mode: AgentMode,
    confidence_threshold: u8,
    max_actions_per_cycle: u8,
    symbols: Seq<[u8; 8]>,
    pcts: Seq<u8>,
    now: i64,
) -> bool {
    &&& account.owner == owner
    &&& account.agent_authority == agent_authority
    &&& account.strategy_type == strategy_type
    &&& account.mode == mode
    &&& account.confidence_threshold == confidence_threshold
    &&& account.max_actions_per_cycle == max_actions_per_cycle
    &&& holds_allocation(account.target_allocation@, symbols, pcts)
    &&& account.allocation_count == symbols.len()
    &&& account.total_cycles == 0
    &&& account.total_actions_executed == 0
    &&& account.last_cycle_at == now
    &&& account.created_at == now
    &&& trail.owner == owner
    &&& trail.head == 0
    &&& trail.count == 0
    &&& forall|i: int| 0 <= i < 8 ==> crate::audit::is_blank_entry(#[trigger] trail.entries[i])
}

/// Creates the strategy account and the audit trail of `owner`.
pub fn initialize(
    owner: Address,
    agent_authority: Address,
    strategy_type: u8,
    mode: u8,
    confidence_threshold: u8,
    max_actions_per_cycle: u8,
    alloc_symbols: Vec<[u8; 8]>,
    alloc_pcts: Vec<u8>,
    now: i64,
) -> (r: Result<(StrategyAccount, AuditTrail), StrategyError>)
    ensures
        strategy_type_of(strategy_type) is None ==> r == Err::<(StrategyAccount, AuditTrail), StrategyError>(
            StrategyError::InvalidStrategyType,
        ),
        strategy_type_of(strategy_type) is Some && agent_mode_of(mode) is None ==> r == Err::<
            (StrategyAccount, AuditTrail),
            StrategyError,
        >(StrategyError::InvalidAgentMode),
        strategy_type_of(strategy_type) is Some && agent_mode_of(mode) is Some ==> match allocation_error(
            alloc_symbols@,
            alloc_pcts@,
        ) {
            Some(e) => r == Err::<(StrategyAccount, AuditTrail), StrategyError>(e),
            None => r is Ok && initialized(
                r->Ok_0.0,
                r->Ok_0.1,
                owner,
                agent_authority,
                strategy_type_of(strategy_type).unwrap(),
                agent_mode_of(mode).unwrap(),
                confidence_threshold,
                max_actions_per_cycle,
                alloc_symbols@,
                alloc_pcts@,
                now,
            ),
        },
{
    let st = match StrategyType::from_u8(strategy_type) {
        Ok(t) => t,
        Err(()) => return Err(StrategyError::InvalidStrategyType),
    };
    let m = match AgentMode::from_u8(mode) {
        Ok(m) => m,
        Err(()) => return Err(StrategyError::InvalidAgentMode),
    };
    let target_allocation = build_allocation(&alloc_symbols, &alloc_pcts)?;
    let account = StrategyAccount {
        owner,
        agent_authority,
        strategy_type: st,
        mode: m,
        confidence_threshold,
        max_actions_per_cycle,
        target_allocation,
        allocation_count: alloc_symbols.len() as u8,
        total_cycles: 0,
        total_actions_executed: 0,
        last_cycle_at: now,
        created_at: now,
    };
    Ok((account, AuditTrail::new(owner)))
}

/// `n + 1`, held at `u64::MAX`.
pub open spec fn bump(n: u64) -> u64 {
    if n == u64::MAX {
        n
    } else {
        (n + 1) as u64
    }
}

/// Replaces the strategy and the target allocation; the owner or the agent may.
pub fn update_strategy(
    account: &mut StrategyAccount,
    signer: Address,
    strategy_type: u8,
    confidence_threshold: u8,
    max_actions_per_cycle: u8,
    alloc_symbols: Vec<[u8; 8]>,
    alloc_pcts: Vec<u8>,
    now: i64,
) -> (r: Result<(), StrategyError>)
    ensures
        r is Err ==> *final(account) == *old(account),
        signer != old(account).owner && signer != old(account).agent_authority ==> r == Err::<(), StrategyError>(
            StrategyError::UnauthorizedStrategyUpdate,
        ),
        (signer == old(account).owner || signer == old(account).agent_authority) && strategy_type_of(strategy_type) is None
            ==> r == Err::<(), StrategyError>(StrategyError::InvalidStrategyType),
        (signer == old(account).owner || signer == old(account).agent_authority) && strategy_type_of(strategy_type) is Some
            ==> match allocation_error(alloc_symbols@, alloc_pcts@) {
            Some(e) => r == Err::<(), StrategyError>(e),
            None => {
                &&& r == Ok::<(), StrategyError>(())
                &&& final(account).strategy_type == strategy_type_of(strategy_type).unwrap()
                &&& final(account).confidence_threshold == confidence_threshold
                &&& final(account).max_actions_per_cycle == max_actions_per_cycle
                &&& holds_allocation(final(account).target_allocation@, alloc_symbols@, alloc_pcts@)
                &&& final(account).allocation_count == alloc_symbols@.len()
                &&& final(account).total_cycles == bump(old(account).total_cycles)
                &&& final(account).last_cycle_at == now
                &&& final(account).owner == old(account).owner
                &&& final(account).agent_authority == old(account).agent_authority
                &&& final(account).mode == old(account).mode
                &&& final(account).total_actions_executed == old(account).total_actions_executed
                &&& final(account).created_at == old(account).created_at
            },
        },
{
    if !account.is_authorized(&signer) {
        return Err(StrategyError::UnauthorizedStrategyUpdate);
    }
    let st = match StrategyType::from_u8(strategy_type) {
        Ok(t) => t,
        Err(()) => return Err(StrategyError::InvalidStrategyType),
    };
    let target_allocation = build_allocation(&alloc_symbols, &alloc_pcts)?;
    account.strategy_type = st;
    account.confidence_threshold = confidence_threshold;
    account.max_actions_per_cycle = max_actions_per_cycle;
    account.target_allocation = target_allocation;
    account.allocation_count = alloc_symbols.len() as u8;
    account.total_cycles = account.total_cycles.saturating_add(1);
    account.last_cycle_at = now;
    Ok(())
}

/// The first check that logging an action fails, if any.
pub open spec fn log_error(
    account: StrategyAccount,
    trail: AuditTrail,
    signer: Address,
    action_type: Seq<u8>,
    protocol: Seq<u8>,
    description: Seq<u8>,
) -> Option<StrategyError> {
    if (signer != account.owner && signer != account.agent_authority) || trail.owner != account.owner {
        Some(StrategyError::UnauthorizedLogAction)
    } else if action_type.len() > 16 {
        Some(StrategyError::ActionTypeTooLong)
    } else if protocol.len() > 16 {
        Some(StrategyError::ProtocolTooLong)
    } else if description.len() > 64 {
        Some(StrategyError::DescriptionTooLong)
    } else {
        None
    }
}

/// Logs an action of the agent to the owner's audit trail; the owner or
/// the agent may.
pub fn log_action(
    account: &mut StrategyAccount,
    trail: &mut AuditTrail,
    signer: Address,
    action_type: &str,
    protocol: &str,
    description: &str,
    executed: bool,
    success: bool,
    now: i64,
) -> (r: Result<(), StrategyError>)
    ensures
        match log_error(
            *old(account),
            *old(trail),
            signer,
            action_type.spec_bytes(),
            protocol.spec_bytes(),
            description.spec_bytes(),
        ) {
            Some(e) => r == Err::<(), StrategyError>(e) && *final(account) == *old(account) && *final(trail)
                == *old(trail),
            None => {
                let slot = old(trail).head as int % 8;
                let entry = final(trail).entries[slot];
                &&& r == Ok::<(), StrategyError>(())
                &&& entry.index == old(trail).count
                &&& entry.action_type@ == padded(action_type.spec_bytes(), 16)
                &&& entry.protocol@ == padded(protocol.spec_bytes(), 16)
                &&& entry.description@ == padded(description.spec_bytes(), 64)
                &&& entry.executed == executed
                &&& entry.success == success
                &&& entry.timestamp == now
                &&& forall|i: int| 0 <= i < 8 && i != slot ==> #[trigger] final(trail).entries[i] == old(trail).entries[i]
                &&& final(trail).owner == old(trail).owner
                &&& final(trail).head == (old(trail).head as int + 1) % 0x1_0000_0000
                &&& final(trail).count == if old(trail).count == u32::MAX {
                    u32::MAX as int
                } else {
                    old(trail).count + 1
                }
                &&& *final(account) == (StrategyAccount {
                    total_actions_executed: if executed {
                        bump(old(account).total_actions_executed)
                    } else {
                        old(account).total_actions_executed
                    },
                    last_cycle_at: now,
                    ..*old(account)
                })
            },
        },
{
    if !account.is_authorized(&signer) || !bytes32_eq(&trail.owner, &account.owner) {
        return Err(StrategyError::UnauthorizedLogAction);
    }
    if action_type.as_bytes().len() > 16 {
        return Err(StrategyError::ActionTypeTooLong);
    }
    if protocol.as_bytes().len() > 16 {
        return Err(StrategyError::ProtocolTooLong);
    }
    if description.as_bytes().len() > 64 {
        return Err(StrategyError::DescriptionTooLong);
    }
    let entry = AuditEntry::new(trail.count, action_type, protocol, description, executed, success, now);
    trail.append(entry);
    if executed {
        account.total_actions_executed = account.total_actions_executed.saturating_add(1);
    }
    account.last_cycle_at = now;
    Ok(())
}

/// Replaces the agent and its mode; only the owner may.
pub fn update_permissions(
    account: &mut StrategyAccount,
    signer: Address,
    new_agent_authority: Address,
    new_mode: u8,
) -> (r: Result<(), StrategyError>)
    ensures
        signer != old(account).owner ==> r == Err::<(), StrategyError>(
            StrategyError::UnauthorizedPermissionsUpdate,
        ) && *final(account) == *old(account),
        signer == old(account).owner && agent_mode_of(new_mode) is None ==> r == Err::<(), StrategyError>(
            StrategyError::InvalidAgentMode,
        ) && *final(account) == *old(account),
        signer == old(account).owner && agent_mode_of(new_mode) is Some ==> r == Ok::<(), StrategyError>(())
            && *final(account) == (StrategyAccount {
            agent_authority: new_agent_authority,
            mode: agent_mode_of(new_mode).unwrap(),
            ..*old(account)
        }),
{
    if !bytes32_eq(&signer, &account.owner) {
        return Err(StrategyError::UnauthorizedPermissionsUpdate);
    }
    let mode = match AgentMode::from_u8(new_mode) {
        Ok(m) => m,
        Err(()) => return Err(StrategyError::InvalidAgentMode),
    };
    account.agent_authority = new_agent_authority;
    account.mode = mode;
    Ok(())
}

} // verus!
