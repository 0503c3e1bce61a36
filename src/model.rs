//! The registry as a mathematical state machine: its abstract state, and for
//! each call the outcome and the next state as functions of the state before.

use vstd::prelude::*;

use crate::address::{all_zero, Address};
use crate::error::UnclaimsError;
use crate::policy::{fee_due, min_gas_to_forward};
use crate::types::{
    AdminChangedFilter, BeaconUpgradedFilter, CallContext, ClaimUnclaimedStateReturn,
    InitializeCall, InitializedFilter, Outcomes, OwnershipTransferredFilter, UnclaimedFund,
    UnclaimedFundClaimedFilter, UnclaimedFundRegisteredFilter, UnclaimedFundVoidedFilter,
    UnclaimedState, UnclaimedStateClaimedFilter, UnclaimedStateRegisteredFilter, UnclaimedStateView,
    UnclaimedStateVoidedFilter, UnclaimsHandlerEvents, UpgradedFilter, VoidUnclaimedStateReturn,
};

verus! {

/// The abstract state of a registry. Entry `i` of `funds` (of `states`) is the
/// fund (the state) with id `i`: `None` once it has been claimed or voided.
/// The length of each sequence is the number of ids issued so far.
pub struct HandlerState {
    pub address: Address,
    pub owner: Address,
    pub initialized: u8,
    pub implementation: Address,
    pub config: InitializeCall,
    pub funds: Seq<Option<UnclaimedFund>>,
    pub states: Seq<Option<UnclaimedStateView>>,
}

/// The number of ids issued of each kind fits a `usize`, as it does for
/// every registry value.
pub open spec fn counts_fit(m: HandlerState) -> bool {
    &&& m.funds.len() <= usize::MAX
    &&& m.states.len() <= usize::MAX
}

/// Every live entry carries its own id: the fund (the state) stored under
/// `i` has id `i`.
pub open spec fn ids_match(m: HandlerState) -> bool {
    &&& forall|i: int|
        0 <= i < m.funds.len() && #[trigger] m.funds[i] is Some ==> m.funds[i].unwrap().id == i
    &&& forall|i: int|
        0 <= i < m.states.len() && #[trigger] m.states[i] is Some ==> m.states[i].unwrap().id == i
}

/// A registry that has not been initialized has issued no ids.
pub open spec fn empty_until_initialized(m: HandlerState) -> bool {
    m.initialized == 0 ==> m.funds.len() == 0 && m.states.len() == 0
}

/// The view of an optional state entry.
pub open spec fn state_view(o: Option<UnclaimedState>) -> Option<UnclaimedStateView> {
    match o {
        Some(s) => Some(s@),
        None => None,
    }
}

/// The live fund with id `id`, if there is one.
pub open spec fn fund_at(m: HandlerState, id: u128) -> Option<UnclaimedFund> {
    if id < m.funds.len() {
        m.funds[id as int]
    } else {
        None
    }
}

/// The live state with id `id`, if there is one.
pub open spec fn state_at(m: HandlerState, id: u128) -> Option<UnclaimedStateView> {
    if id < m.states.len() {
        m.states[id as int]
    } else {
        None
    }
}

/// The expiry time a registration asks for: `requested`, or where that is
/// zero, the default duration from now.
pub open spec fn resolved_expiry(requested: u128, now: u128, duration: u128) -> int {
    if requested == 0 {
        now + duration
    } else {
        requested as int
    }
}

/// An expiry time is strictly in the future and representable.
pub open spec fn expiry_ok(expiry: int, now: u128) -> bool {
    now < expiry <= u128::MAX
}

/// Why a public fund registration fails, if it does.
pub open spec fn register_fund_error(
    m: HandlerState,
    ctx: CallContext,
    email_addr_commit: [u8; 32],
    amount: u128,
    expiry_time: u128,
) -> Option<UnclaimsError> {
    if m.initialized == 0 {
        Some(UnclaimsError::NotInitialized)
    } else if all_zero(email_addr_commit@) {
        Some(UnclaimsError::InvalidCommitment)
    } else if amount == 0 {
        Some(UnclaimsError::EmptyPayload)
    } else if !expiry_ok(
        resolved_expiry(expiry_time, ctx.now, m.config.unclaims_expiry_duration),
        ctx.now,
    ) {
        Some(UnclaimsError::InvalidExpiry)
    } else if ctx.value != fee_due(
        m.config.unclaimed_fund_claim_gas,
        m.config.max_fee_per_gas,
        ctx.base_fee_per_gas,
    ) {
        Some(UnclaimsError::InvalidFee)
    } else {
        None
    }
}

/// Why a fund registration by the owner fails, if it does.
pub open spec fn register_fund_internal_error(
    m: HandlerState,
    ctx: CallContext,
    email_addr_commit: [u8; 32],
    amount: u128,
) -> Option<UnclaimsError> {
    if m.initialized == 0 {
        Some(UnclaimsError::NotInitialized)
    } else if ctx.caller@ != m.owner@ {
        Some(UnclaimsError::Unauthorized)
    } else if all_zero(email_addr_commit@) {
        Some(UnclaimsError::InvalidCommitment)
    } else if amount == 0 {
        Some(UnclaimsError::EmptyPayload)
    } else if !expiry_ok(ctx.now + m.config.unclaims_expiry_duration, ctx.now) {
        Some(UnclaimsError::InvalidExpiry)
    } else {
        None
    }
}

/// Why a public state registration fails, if it does.
pub open spec fn register_state_error(
    m: HandlerState,
    ctx: CallContext,
    email_addr_commit: [u8; 32],
    extension_addr: Address,
    state: Seq<u8>,
    expiry_time: u128,
) -> Option<UnclaimsError> {
    if m.initialized == 0 {
        Some(UnclaimsError::NotInitialized)
    } else if all_zero(email_addr_commit@) {
        Some(UnclaimsError::InvalidCommitment)
    } else if all_zero(extension_addr@) {
        Some(UnclaimsError::ZeroAddress)
    } else if state.len() == 0 {
        Some(UnclaimsError::EmptyPayload)
    } else if !expiry_ok(
        resolved_expiry(expiry_time, ctx.now, m.config.unclaims_expiry_duration),
        ctx.now,
    ) {
        Some(UnclaimsError::InvalidExpiry)
    } else if ctx.value != fee_due(
        m.config.unclaimed_state_claim_gas,
        m.config.max_fee_per_gas,
        ctx.base_fee_per_gas,
    ) {
        Some(UnclaimsError::InvalidFee)
    } else {
        None
    }
}

/// Why a state registration by the owner fails, if it does.
pub open spec fn register_state_internal_error(
    m: HandlerState,
    ctx: CallContext,
    extension_addr: Address,
    email_addr_commit: [u8; 32],
    state: Seq<u8>,
) -> Option<UnclaimsError> {
    if m.initialized == 0 {
        Some(UnclaimsError::NotInitialized)
    } else if ctx.caller@ != m.owner@ {
        Some(UnclaimsError::Unauthorized)
    } else if all_zero(email_addr_commit@) {
        Some(UnclaimsError::InvalidCommitment)
    } else if all_zero(extension_addr@) {
        Some(UnclaimsError::ZeroAddress)
    } else if state.len() == 0 {
        Some(UnclaimsError::EmptyPayload)
    } else if !expiry_ok(ctx.now + m.config.unclaims_expiry_duration, ctx.now) {
        Some(UnclaimsError::InvalidExpiry)
    } else {
        None
    }
}

/// The fund a successful registration stores under the next id.
pub open spec fn new_fund(
    m: HandlerState,
    sender: Address,
    email_addr_commit: [u8; 32],
    token_addr: Address,
    amount: u128,
    expiry_time: int,
) -> UnclaimedFund {
    UnclaimedFund {
        id: m.funds.len() as u128,
        email_addr_commit,
        sender,
        token_addr,
        amount,
        expiry_time: expiry_time as u128,
    }
}

/// The state a successful registration stores under the next id.
pub open spec fn new_state(
    m: HandlerState,
    sender: Address,
    email_addr_commit: [u8; 32],
    extension_addr: Address,
    state: Seq<u8>,
    expiry_time: int,
) -> UnclaimedStateView {
    UnclaimedStateView {
        id: m.states.len() as u128,
        email_addr_commit,
        extension_addr,
        sender,
        state,
        expiry_time: expiry_time as u128,
    }
}

/// `m` with `f` stored under the next fund id.
pub open spec fn push_fund(m: HandlerState, f: UnclaimedFund) -> HandlerState {
    HandlerState { funds: m.funds.push(Some(f)), ..m }
}

/// `m` with `s` stored under the next state id.
pub open spec fn push_state(m: HandlerState, s: UnclaimedStateView) -> HandlerState {
    HandlerState { states: m.states.push(Some(s)), ..m }
}

/// `m` with the fund `id` cleared.
pub open spec fn clear_fund(m: HandlerState, id: u128) -> HandlerState {
    HandlerState { funds: m.funds.update(id as int, None), ..m }
}

/// `m` with the state `id` cleared.
pub open spec fn clear_state(m: HandlerState, id: u128) -> HandlerState {
    HandlerState { states: m.states.update(id as int, None), ..m }
}

/// The outcome of a public fund registration: the new id, or why it failed.
pub open spec fn register_fund_result(
    m: HandlerState,
    ctx: CallContext,
    email_addr_commit: [u8; 32],
    amount: u128,
    expiry_time: u128,
) -> Result<u128, UnclaimsError> {
    match register_fund_error(m, ctx, email_addr_commit, amount, expiry_time) {
        Some(e) => Err(e),
        None => Ok(m.funds.len() as u128),
    }
}

/// The state after a public fund registration.
pub open spec fn register_fund_next(
    m: HandlerState,
    ctx: CallContext,
    email_addr_commit: [u8; 32],
    token_addr: Address,
    amount: u128,
    expiry_time: u128,
) -> HandlerState {
    match register_fund_error(m, ctx, email_addr_commit, amount, expiry_time) {
        Some(e) => m,
        None => push_fund(
            m,
            new_fund(
                m,
                ctx.caller,
                email_addr_commit,
                token_addr,
                amount,
                resolved_expiry(expiry_time, ctx.now, m.config.unclaims_expiry_duration),
            ),
        ),
    }
}

/// The outcome of a fund registration by the owner.
pub open spec fn register_fund_internal_result(
    m: HandlerState,
    ctx: CallContext,
    email_addr_commit: [u8; 32],
    amount: u128,
) -> Result<u128, UnclaimsError> {
    match register_fund_internal_error(m, ctx, email_addr_commit, amount) {
        Some(e) => Err(e),
        None => Ok(m.funds.len() as u128),
    }
}

/// The state after a fund registration by the owner.
pub open spec fn register_fund_internal_next(
    m: HandlerState,
    ctx: CallContext,
    sender: Address,
    email_addr_commit: [u8; 32],
    token_addr: Address,
    amount: u128,
) -> HandlerState {
    match register_fund_internal_error(m, ctx, email_addr_commit, amount) {
        Some(e) => m,
        None => push_fund(
            m,
            new_fund(
                m,
                sender,
                email_addr_commit,
                token_addr,
                amount,
                ctx.now + m.config.unclaims_expiry_duration,
            ),
        ),
    }
}

/// The outcome of a public state registration.
pub open spec fn register_state_result(
    m: HandlerState,
    ctx: CallContext,
    email_addr_commit: [u8; 32],
    extension_addr: Address,
    state: Seq<u8>,
    expiry_time: u128,
) -> Result<u128, UnclaimsError> {
    match register_state_error(m, ctx, email_addr_commit, extension_addr, state, expiry_time) {
        Some(e) => Err(e),
        None => Ok(m.states.len() as u128),
    }
}

/// The state after a public state registration.
pub open spec fn register_state_next(
    m: HandlerState,
    ctx: CallContext,
    email_addr_commit: [u8; 32],
    extension_addr: Address,
    state: Seq<u8>,
    expiry_time: u128,
) -> HandlerState {
    match register_state_error(m, ctx, email_addr_commit, extension_addr, state, expiry_time) {
        Some(e) => m,
        None => push_state(
            m,
            new_state(
                m,
                ctx.caller,
                email_addr_commit,
                extension_addr,
                state,
                resolved_expiry(expiry_time, ctx.now, m.config.unclaims_expiry_duration),
            ),
        ),
    }
}

/// The outcome of a state registration by the owner.
pub open spec fn register_state_internal_result(
    m: HandlerState,
    ctx: CallContext,
    extension_addr: Address,
    email_addr_commit: [u8; 32],
    state: Seq<u8>,
) -> Result<u128, UnclaimsError> {
    match register_state_internal_error(m, ctx, extension_addr, email_addr_commit, state) {
        Some(e) => Err(e),
        None => Ok(m.states.len() as u128),
    }
}

/// The state after a state registration by the owner.
pub open spec fn register_state_internal_next(
    m: HandlerState,
    ctx: CallContext,
    extension_addr: Address,
    sender: Address,
    email_addr_commit: [u8; 32],
    state: Seq<u8>,
) -> HandlerState {
    match register_state_internal_error(m, ctx, extension_addr, email_addr_commit, state) {
        Some(e) => m,
        None => push_state(
            m,
            new_state(
                m,
                sender,
                email_addr_commit,
                extension_addr,
                state,
                ctx.now + m.config.unclaims_expiry_duration,
            ),
        ),
    }
}

/// Why a fund claim fails, if it does. The relayer check comes first, before
/// the entry is looked at.
pub open spec fn claim_fund_error(
    m: HandlerState,
    ctx: CallContext,
    id: u128,
    env: Outcomes,
) -> Option<UnclaimsError> {
    if m.initialized == 0 {
        Some(UnclaimsError::NotInitialized)
    } else if !env.caller_is_relayer {
        Some(UnclaimsError::Unauthorized)
    } else if id >= m.funds.len() {
        Some(UnclaimsError::NotFound)
    } else if m.funds[id as int] is None {
        Some(UnclaimsError::NotRegistered)
    } else if ctx.now >= m.funds[id as int].unwrap().expiry_time {
        Some(UnclaimsError::AlreadyExpired)
    } else if !env.proof_valid {
        Some(UnclaimsError::InvalidProof)
    } else if env.gas_left < min_gas_to_forward() {
        Some(UnclaimsError::InsufficientGas)
    } else if !env.transfer_ok {
        Some(UnclaimsError::TransferFailed)
    } else {
        None
    }
}

/// Why a state claim fails, if it does. A failed callback does not fail it.
pub open spec fn claim_state_error(
    m: HandlerState,
    ctx: CallContext,
    id: u128,
    env: Outcomes,
) -> Option<UnclaimsError> {
    if m.initialized == 0 {
        Some(UnclaimsError::NotInitialized)
    } else if !env.caller_is_relayer {
        Some(UnclaimsError::Unauthorized)
    } else if id >= m.states.len() {
        Some(UnclaimsError::NotFound)
    } else if m.states[id as int] is None {
        Some(UnclaimsError::NotRegistered)
    } else if ctx.now >= m.states[id as int].unwrap().expiry_time {
        Some(UnclaimsError::AlreadyExpired)
    } else if !env.proof_valid {
        Some(UnclaimsError::InvalidProof)
    } else if env.gas_left < min_gas_to_forward() {
        Some(UnclaimsError::InsufficientGas)
    } else {
        None
    }
}

/// Why a fund void fails, if it does. Only the depositor or a relayer may void.
pub open spec fn void_fund_error(
    m: HandlerState,
    ctx: CallContext,
    id: u128,
    env: Outcomes,
) -> Option<UnclaimsError> {
    if m.initialized == 0 {
        Some(UnclaimsError::NotInitialized)
    } else if id >= m.funds.len() {
        Some(UnclaimsError::NotFound)
    } else if m.funds[id as int] is None {
        Some(UnclaimsError::NotRegistered)
    } else if ctx.now < m.funds[id as int].unwrap().expiry_time {
        Some(UnclaimsError::NotExpired)
    } else if ctx.caller@ != m.funds[id as int].unwrap().sender@ && !env.caller_is_relayer {
        Some(UnclaimsError::Unauthorized)
    } else if !env.transfer_ok {
        Some(UnclaimsError::TransferFailed)
    } else {
        None
    }
}

/// Why a state void fails, if it does. Only the depositor or a relayer may void.
pub open spec fn void_state_error(
    m: HandlerState,
    ctx: CallContext,
    id: u128,
    env: Outcomes,
) -> Option<UnclaimsError> {
    if m.initialized == 0 {
        Some(UnclaimsError::NotInitialized)
    } else if id >= m.states.len() {
        Some(UnclaimsError::NotFound)
    } else if m.states[id as int] is None {
        Some(UnclaimsError::NotRegistered)
    } else if ctx.now < m.states[id as int].unwrap().expiry_time {
        Some(UnclaimsError::NotExpired)
    } else if ctx.caller@ != m.states[id as int].unwrap().sender@ && !env.caller_is_relayer {
        Some(UnclaimsError::Unauthorized)
    } else if env.gas_left < min_gas_to_forward() {
        Some(UnclaimsError::InsufficientGas)
    } else {
        None
    }
}

/// The state after a fund claim.
pub open spec fn claim_fund_next(m: HandlerState, ctx: CallContext, id: u128, env: Outcomes) -> HandlerState {
    if claim_fund_error(m, ctx, id, env) is Some {
        m
    } else {
        clear_fund(m, id)
    }
}

/// The state after a state claim.
pub open spec fn claim_state_next(m: HandlerState, ctx: CallContext, id: u128, env: Outcomes) -> HandlerState {
    if claim_state_error(m, ctx, id, env) is Some {
        m
    } else {
        clear_state(m, id)
    }
}

/// The state after a fund void.
pub open spec fn void_fund_next(m: HandlerState, ctx: CallContext, id: u128, env: Outcomes) -> HandlerState {
    if void_fund_error(m, ctx, id, env) is Some {
        m
    } else {
        clear_fund(m, id)
    }
}

/// The state after a state void.
pub open spec fn void_state_next(m: HandlerState, ctx: CallContext, id: u128, env: Outcomes) -> HandlerState {
    if void_state_error(m, ctx, id, env) is Some {
        m
    } else {
        clear_state(m, id)
    }
}


/// `after` is `before` with exactly one event appended.
pub open spec fn one_appended(
    before: Seq<UnclaimsHandlerEvents>,
    after: Seq<UnclaimsHandlerEvents>,
) -> bool {
    &&& after.len() == before.len() + 1
    &&& after.drop_last() == before
}

/// `ev` announces the registration of `f`, with the announced randomness and email address.
pub open spec fn fund_registered_event(
    ev: UnclaimsHandlerEvents,
    f: UnclaimedFund,
    commitment_randomness: u128,
    email_addr: Seq<char>,
) -> bool {
    match ev {
        UnclaimsHandlerEvents::UnclaimedFundRegisteredFilter(e) => {
            &&& e.id == f.id
            &&& e.email_addr_commit == f.email_addr_commit
            &&& e.token_addr == f.token_addr
            &&& e.amount == f.amount
            &&& e.sender == f.sender
            &&& e.expiry_time == f.expiry_time
            &&& e.commitment_randomness == commitment_randomness
            &&& e.email_addr@ == email_addr
        },
        _ => false,
    }
}

/// `ev` announces the registration of `s`, with the announced randomness and email address.
pub open spec fn state_registered_event(
    ev: UnclaimsHandlerEvents,
    s: UnclaimedStateView,
    commitment_randomness: u128,
    email_addr: Seq<char>,
) -> bool {
    match ev {
        UnclaimsHandlerEvents::UnclaimedStateRegisteredFilter(e) => {
            &&& e.id == s.id
            &&& e.email_addr_commit == s.email_addr_commit
            &&& e.extension_addr == s.extension_addr
            &&& e.sender == s.sender
            &&& e.expiry_time == s.expiry_time
            &&& e.state@ == s.state
            &&& e.commitment_randomness == commitment_randomness
            &&& e.email_addr@ == email_addr
        },
        _ => false,
    }
}

/// The outcome of a fund claim.
pub open spec fn claim_fund_result(m: HandlerState, ctx: CallContext, id: u128, env: Outcomes) -> Result<
    (),
    UnclaimsError,
> {
    match claim_fund_error(m, ctx, id, env) {
        Some(e) => Err(e),
        None => Ok(()),
    }
}

/// The outcome of a state claim: what the extension's callback answered.
pub open spec fn claim_state_result(m: HandlerState, ctx: CallContext, id: u128, env: Outcomes) -> Result<
    ClaimUnclaimedStateReturn,
    UnclaimsError,
> {
    match claim_state_error(m, ctx, id, env) {
        Some(e) => Err(e),
        None => Ok(
            ClaimUnclaimedStateReturn {
                success: env.callback_success,
                return_data: env.callback_return_data,
            },
        ),
    }
}

/// The outcome of a fund void.
pub open spec fn void_fund_result(m: HandlerState, ctx: CallContext, id: u128, env: Outcomes) -> Result<
    (),
    UnclaimsError,
> {
    match void_fund_error(m, ctx, id, env) {
        Some(e) => Err(e),
        None => Ok(()),
    }
}

/// The outcome of a state void: what the extension's callback answered.
pub open spec fn void_state_result(m: HandlerState, ctx: CallContext, id: u128, env: Outcomes) -> Result<
    VoidUnclaimedStateReturn,
    UnclaimsError,
> {
    match void_state_error(m, ctx, id, env) {
        Some(e) => Err(e),
        None => Ok(
            VoidUnclaimedStateReturn {
                success: env.callback_success,
                return_data: env.callback_return_data,
            },
        ),
    }
}

/// The event that records the claim of fund `f`, with id `id`, by `recipient`.
pub open spec fn fund_claimed_event(id: u128, f: UnclaimedFund, recipient: Address) -> UnclaimsHandlerEvents {
    UnclaimsHandlerEvents::UnclaimedFundClaimedFilter(
        UnclaimedFundClaimedFilter {
            id,
            email_addr_commit: f.email_addr_commit,
            token_addr: f.token_addr,
            amount: f.amount,
            recipient,
        },
    )
}

/// The event that records the void of fund `f`, with id `id`, back to its sender.
pub open spec fn fund_voided_event(id: u128, f: UnclaimedFund) -> UnclaimsHandlerEvents {
    UnclaimsHandlerEvents::UnclaimedFundVoidedFilter(
        UnclaimedFundVoidedFilter {
            id,
            email_addr_commit: f.email_addr_commit,
            token_addr: f.token_addr,
            amount: f.amount,
            sender: f.sender,
        },
    )
}

/// The event that records the claim of state `s`, with id `id`, by `recipient`.
pub open spec fn state_claimed_event(id: u128, s: UnclaimedStateView, recipient: Address) -> UnclaimsHandlerEvents {
    UnclaimsHandlerEvents::UnclaimedStateClaimedFilter(
        UnclaimedStateClaimedFilter { id, email_addr_commit: s.email_addr_commit, recipient },
    )
}

/// The event that records the void of state `s`, with id `id`.
pub open spec fn state_voided_event(id: u128, s: UnclaimedStateView) -> UnclaimsHandlerEvents {
    UnclaimsHandlerEvents::UnclaimedStateVoidedFilter(
        UnclaimedStateVoidedFilter { id, email_addr_commit: s.email_addr_commit, sender: s.sender },
    )
}

/// The proxy admin changes recorded in `log`, oldest first.
pub open spec fn admin_changes_in(log: Seq<UnclaimsHandlerEvents>) -> Seq<AdminChangedFilter>
    decreases log.len(),
{
    if log.len() == 0 {
        Seq::empty()
    } else {
        match log.last() {
            UnclaimsHandlerEvents::AdminChangedFilter(e) => admin_changes_in(log.drop_last()).push(e),
            _ => admin_changes_in(log.drop_last()),
        }
    }
}

/// The beacon upgrades recorded in `log`, oldest first.
pub open spec fn beacon_upgrades_in(log: Seq<UnclaimsHandlerEvents>) -> Seq<BeaconUpgradedFilter>
    decreases log.len(),
{
    if log.len() == 0 {
        Seq::empty()
    } else {
        match log.last() {
            UnclaimsHandlerEvents::BeaconUpgradedFilter(e) => beacon_upgrades_in(log.drop_last()).push(e),
            _ => beacon_upgrades_in(log.drop_last()),
        }
    }
}

/// The initializations recorded in `log`, oldest first.
pub open spec fn initializations_in(log: Seq<UnclaimsHandlerEvents>) -> Seq<InitializedFilter>
    decreases log.len(),
{
    if log.len() == 0 {
        Seq::empty()
    } else {
        match log.last() {
            UnclaimsHandlerEvents::InitializedFilter(e) => initializations_in(log.drop_last()).push(e),
            _ => initializations_in(log.drop_last()),
        }
    }
}

/// The ownership transfers recorded in `log`, oldest first.
pub open spec fn ownership_transfers_in(log: Seq<UnclaimsHandlerEvents>) -> Seq<OwnershipTransferredFilter>
    decreases log.len(),
{
    if log.len() == 0 {
        Seq::empty()
    } else {
        match log.last() {
            UnclaimsHandlerEvents::OwnershipTransferredFilter(e) => ownership_transfers_in(log.drop_last()).push(e),
            _ => ownership_transfers_in(log.drop_last()),
        }
    }
}

/// The fund claims recorded in `log`, oldest first.
pub open spec fn fund_claims_in(log: Seq<UnclaimsHandlerEvents>) -> Seq<UnclaimedFundClaimedFilter>
    decreases log.len(),
{
    if log.len() == 0 {
        Seq::empty()
    } else {
        match log.last() {
            UnclaimsHandlerEvents::UnclaimedFundClaimedFilter(e) => fund_claims_in(log.drop_last()).push(e),
            _ => fund_claims_in(log.drop_last()),
        }
    }
}

/// The fund registrations recorded in `log`, oldest first.
pub open spec fn fund_registrations_in(log: Seq<UnclaimsHandlerEvents>) -> Seq<UnclaimedFundRegisteredFilter>
    decreases log.len(),
{
    if log.len() == 0 {
        Seq::empty()
    } else {
        match log.last() {
            UnclaimsHandlerEvents::UnclaimedFundRegisteredFilter(e) => fund_registrations_in(log.drop_last()).push(e),
            _ => fund_registrations_in(log.drop_last()),
        }
    }
}

/// The fund voids recorded in `log`, oldest first.
pub open spec fn fund_voids_in(log: Seq<UnclaimsHandlerEvents>) -> Seq<UnclaimedFundVoidedFilter>
    decreases log.len(),
{
    if log.len() == 0 {
        Seq::empty()
    } else {
        match log.last() {
            UnclaimsHandlerEvents::UnclaimedFundVoidedFilter(e) => fund_voids_in(log.drop_last()).push(e),
            _ => fund_voids_in(log.drop_last()),
        }
    }
}

/// The state claims recorded in `log`, oldest first.
pub open spec fn state_claims_in(log: Seq<UnclaimsHandlerEvents>) -> Seq<UnclaimedStateClaimedFilter>
    decreases log.len(),
{
    if log.len() == 0 {
        Seq::empty()
    } else {
        match log.last() {
            UnclaimsHandlerEvents::UnclaimedStateClaimedFilter(e) => state_claims_in(log.drop_last()).push(e),
            _ => state_claims_in(log.drop_last()),
        }
    }
}

/// The state registrations recorded in `log`, oldest first.
pub open spec fn state_registrations_in(log: Seq<UnclaimsHandlerEvents>) -> Seq<UnclaimedStateRegisteredFilter>
    decreases log.len(),
{
    if log.len() == 0 {
        Seq::empty()
    } else {
        match log.last() {
            UnclaimsHandlerEvents::UnclaimedStateRegisteredFilter(e) => state_registrations_in(log.drop_last()).push(e),
            _ => state_registrations_in(log.drop_last()),
        }
    }
}

/// The state voids recorded in `log`, oldest first.
pub open spec fn state_voids_in(log: Seq<UnclaimsHandlerEvents>) -> Seq<UnclaimedStateVoidedFilter>
    decreases log.len(),
{
    if log.len() == 0 {
        Seq::empty()
    } else {
        match log.last() {
            UnclaimsHandlerEvents::UnclaimedStateVoidedFilter(e) => state_voids_in(log.drop_last()).push(e),
            _ => state_voids_in(log.drop_last()),
        }
    }
}

/// The implementation upgrades recorded in `log`, oldest first.
pub open spec fn upgrades_in(log: Seq<UnclaimsHandlerEvents>) -> Seq<UpgradedFilter>
    decreases log.len(),
{
    if log.len() == 0 {
        Seq::empty()
    } else {
        match log.last() {
            UnclaimsHandlerEvents::UpgradedFilter(e) => upgrades_in(log.drop_last()).push(e),
            _ => upgrades_in(log.drop_last()),
        }
    }
}

} // verus!
