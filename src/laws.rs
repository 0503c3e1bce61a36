//! Properties of the registry as a whole, proved over its state machine.

use vstd::prelude::*;

use crate::address::Address;
use crate::error::UnclaimsError;
use crate::model::{
    claim_fund_error, claim_fund_next, claim_fund_result, claim_state_error, claim_state_next,
    claim_state_result, counts_fit, empty_until_initialized, fund_at, ids_match, register_fund_internal_next,
    register_fund_internal_result, register_fund_next, register_fund_result,
    register_state_internal_next, register_state_internal_result, register_state_next,
    register_state_result, resolved_expiry, state_at, void_fund_error, void_fund_next,
    void_fund_result, void_state_error, void_state_next, void_state_result, HandlerState,
};
use crate::policy::{fee_due, min_gas_to_forward};
use crate::types::{
    CallContext, Outcomes, UnclaimedFund, UnclaimedStateView,
};

verus! {

/// How the entry stores may change from one state to a later one: the number
/// of issued ids never shrinks, an entry never changes in place, and an entry
/// once cleared stays cleared, so an id never names a live entry again.
pub open spec fn evolves(m: HandlerState, n: HandlerState) -> bool {
    &&& m.funds.len() <= n.funds.len()
    &&& m.states.len() <= n.states.len()
    &&& forall|i: int|
        0 <= i < m.funds.len() ==> (#[trigger] n.funds[i] is None || n.funds[i] == m.funds[i])
    &&& forall|i: int|
        0 <= i < m.funds.len() && #[trigger] m.funds[i] is None ==> n.funds[i] is None
    &&& forall|i: int|
        0 <= i < m.states.len() ==> (#[trigger] n.states[i] is None || n.states[i]
            == m.states[i])
    &&& forall|i: int|
        0 <= i < m.states.len() && #[trigger] m.states[i] is None ==> n.states[i] is None
}

/// Successive changes of the entry stores compose.
pub proof fn lemma_evolves_transitive(a: HandlerState, b: HandlerState, c: HandlerState)
    requires
        evolves(a, b),
        evolves(b, c),
    ensures
        evolves(a, c),
{
}

/// A call that leaves both entry stores alone, such as a change of owner,
/// of implementation or of configuration, changes them as [`evolves`] allows.
pub proof fn lemma_store_preserving_call_evolves(m: HandlerState, n: HandlerState)
    requires
        n.funds == m.funds,
        n.states == m.states,
    ensures
        evolves(m, n),
{
}

/// Every registration, claim and void changes the entry stores only as
/// [`evolves`] allows.
pub proof fn lemma_every_call_evolves(
    m: HandlerState,
    ctx: CallContext,
    id: u128,
    env: Outcomes,
    sender: Address,
    email_addr_commit: [u8; 32],
    token_addr: Address,
    extension_addr: Address,
    amount: u128,
    state: Seq<u8>,
    expiry_time: u128,
)
    ensures
        evolves(m, register_fund_next(m, ctx, email_addr_commit, token_addr, amount, expiry_time)),
        evolves(
            m,
            register_fund_internal_next(m, ctx, sender, email_addr_commit, token_addr, amount),
        ),
        evolves(
            m,
            register_state_next(m, ctx, email_addr_commit, extension_addr, state, expiry_time),
        ),
        evolves(
            m,
            register_state_internal_next(m, ctx, extension_addr, sender, email_addr_commit, state),
        ),
        evolves(m, claim_fund_next(m, ctx, id, env)),
        evolves(m, claim_state_next(m, ctx, id, env)),
        evolves(m, void_fund_next(m, ctx, id, env)),
        evolves(m, void_state_next(m, ctx, id, env)),
{
}

/// Every registration, claim and void keeps each live entry under its own id.
pub proof fn lemma_every_call_keeps_ids(
    m: HandlerState,
    ctx: CallContext,
    id: u128,
    env: Outcomes,
    sender: Address,
    email_addr_commit: [u8; 32],
    token_addr: Address,
    extension_addr: Address,
    amount: u128,
    state: Seq<u8>,
    expiry_time: u128,
)
    requires
        counts_fit(m),
        ids_match(m),
    ensures
        ids_match(register_fund_next(m, ctx, email_addr_commit, token_addr, amount, expiry_time)),
        ids_match(
            register_fund_internal_next(m, ctx, sender, email_addr_commit, token_addr, amount),
        ),
        ids_match(
            register_state_next(m, ctx, email_addr_commit, extension_addr, state, expiry_time),
        ),
        ids_match(
            register_state_internal_next(m, ctx, extension_addr, sender, email_addr_commit, state),
        ),
        ids_match(claim_fund_next(m, ctx, id, env)),
        ids_match(claim_state_next(m, ctx, id, env)),
        ids_match(void_fund_next(m, ctx, id, env)),
        ids_match(void_state_next(m, ctx, id, env)),
{
}

/// Before initialization every registration, claim and void fails with
/// `NotInitialized` and changes nothing, so a registry that has issued no ids
/// issues none until it is initialized.
pub proof fn lemma_nothing_before_initialization(
    m: HandlerState,
    ctx: CallContext,
    id: u128,
    env: Outcomes,
    sender: Address,
    email_addr_commit: [u8; 32],
    token_addr: Address,
    extension_addr: Address,
    amount: u128,
    state: Seq<u8>,
    expiry_time: u128,
)
    requires
        m.initialized == 0,
    ensures
        register_fund_result(m, ctx, email_addr_commit, amount, expiry_time) == Err::<
            u128,
            UnclaimsError,
        >(UnclaimsError::NotInitialized),
        register_fund_next(m, ctx, email_addr_commit, token_addr, amount, expiry_time) == m,
        register_fund_internal_result(m, ctx, email_addr_commit, amount) == Err::<
            u128,
            UnclaimsError,
        >(UnclaimsError::NotInitialized),
        register_fund_internal_next(m, ctx, sender, email_addr_commit, token_addr, amount) == m,
        register_state_result(m, ctx, email_addr_commit, extension_addr, state, expiry_time)
            == Err::<u128, UnclaimsError>(UnclaimsError::NotInitialized),
        register_state_next(m, ctx, email_addr_commit, extension_addr, state, expiry_time) == m,
        register_state_internal_result(m, ctx, extension_addr, email_addr_commit, state) == Err::<
            u128,
            UnclaimsError,
        >(UnclaimsError::NotInitialized),
        register_state_internal_next(m, ctx, extension_addr, sender, email_addr_commit, state)
            == m,
        claim_fund_error(m, ctx, id, env) == Some(UnclaimsError::NotInitialized),
        claim_fund_next(m, ctx, id, env) == m,
        claim_state_error(m, ctx, id, env) == Some(UnclaimsError::NotInitialized),
        claim_state_next(m, ctx, id, env) == m,
        void_fund_error(m, ctx, id, env) == Some(UnclaimsError::NotInitialized),
        void_fund_next(m, ctx, id, env) == m,
        void_state_error(m, ctx, id, env) == Some(UnclaimsError::NotInitialized),
        void_state_next(m, ctx, id, env) == m,
        empty_until_initialized(m) ==> empty_until_initialized(
            register_fund_next(m, ctx, email_addr_commit, token_addr, amount, expiry_time),
        ),
        empty_until_initialized(m) ==> empty_until_initialized(
            register_state_next(m, ctx, email_addr_commit, extension_addr, state, expiry_time),
        ),
{
}

/// An accepted fund registration returns the previous fund count as the new
/// id, stores under it exactly the fund submitted, and grows the count by one.
pub proof fn lemma_register_fund_then_get(
    m: HandlerState,
    ctx: CallContext,
    email_addr_commit: [u8; 32],
    token_addr: Address,
    amount: u128,
    expiry_time: u128,
)
    requires
        counts_fit(m),
        register_fund_result(m, ctx, email_addr_commit, amount, expiry_time) is Ok,
    ensures
        ({
            let n = register_fund_next(m, ctx, email_addr_commit, token_addr, amount, expiry_time);
            let id = m.funds.len() as u128;
            &&& register_fund_result(m, ctx, email_addr_commit, amount, expiry_time) == Ok::<
                u128,
                UnclaimsError,
            >(id)
            &&& id == m.funds.len()
            &&& n.funds.len() == m.funds.len() + 1
            &&& fund_at(n, id) == Some(
                UnclaimedFund {
                    id,
                    email_addr_commit,
                    sender: ctx.caller,
                    token_addr,
                    amount,
                    expiry_time: resolved_expiry(
                        expiry_time,
                        ctx.now,
                        m.config.unclaims_expiry_duration,
                    ) as u128,
                },
            )
            &&& n.states == m.states
        }),
{
}

/// An accepted owner fund registration stores exactly the fund submitted
/// under the previous fund count, and grows the count by one.
pub proof fn lemma_register_fund_internal_then_get(
    m: HandlerState,
    ctx: CallContext,
    sender: Address,
    email_addr_commit: [u8; 32],
    token_addr: Address,
    amount: u128,
)
    requires
        counts_fit(m),
        register_fund_internal_result(m, ctx, email_addr_commit, amount) is Ok,
    ensures
        ({
            let n = register_fund_internal_next(
                m,
                ctx,
                sender,
                email_addr_commit,
                token_addr,
                amount,
            );
            let id = m.funds.len() as u128;
            &&& register_fund_internal_result(m, ctx, email_addr_commit, amount) == Ok::<
                u128,
                UnclaimsError,
            >(id)
            &&& id == m.funds.len()
            &&& n.funds.len() == m.funds.len() + 1
            &&& fund_at(n, id) == Some(
                UnclaimedFund {
                    id,
                    email_addr_commit,
                    sender,
                    token_addr,
                    amount,
                    expiry_time: (ctx.now + m.config.unclaims_expiry_duration) as u128,
                },
            )
        }),
{
}

/// An accepted state registration returns the previous state count as the
/// new id, stores under it exactly the state submitted, and grows the count by one.
pub proof fn lemma_register_state_then_get(
    m: HandlerState,
    ctx: CallContext,
    email_addr_commit: [u8; 32],
    extension_addr: Address,
    state: Seq<u8>,
    expiry_time: u128,
)
    requires
        counts_fit(m),
        register_state_result(m, ctx, email_addr_commit, extension_addr, state, expiry_time) is Ok,
    ensures
        ({
            let n = register_state_next(
                m,
                ctx,
                email_addr_commit,
                extension_addr,
                state,
                expiry_time,
            );
            let id = m.states.len() as u128;
            &&& register_state_result(m, ctx, email_addr_commit, extension_addr, state, expiry_time)
                == Ok::<u128, UnclaimsError>(id)
            &&& id == m.states.len()
            &&& n.states.len() == m.states.len() + 1
            &&& state_at(n, id) == Some(
                UnclaimedStateView {
                    id,
                    email_addr_commit,
                    extension_addr,
                    sender: ctx.caller,
                    state,
                    expiry_time: resolved_expiry(
                        expiry_time,
                        ctx.now,
                        m.config.unclaims_expiry_duration,
                    ) as u128,
                },
            )
            &&& n.funds == m.funds
        }),
{
}

/// An accepted owner state registration stores exactly the state submitted
/// under the previous state count, and grows the count by one.
pub proof fn lemma_register_state_internal_then_get(
    m: HandlerState,
    ctx: CallContext,
    extension_addr: Address,
    sender: Address,
    email_addr_commit: [u8; 32],
    state: Seq<u8>,
)
    requires
        counts_fit(m),
        register_state_internal_result(m, ctx, extension_addr, email_addr_commit, state) is Ok,
    ensures
        ({
            let n = register_state_internal_next(
                m,
                ctx,
                extension_addr,
                sender,
                email_addr_commit,
                state,
            );
            let id = m.states.len() as u128;
            &&& register_state_internal_result(m, ctx, extension_addr, email_addr_commit, state)
                == Ok::<u128, UnclaimsError>(id)
            &&& n.states.len() == m.states.len() + 1
            &&& state_at(n, id) == Some(
                UnclaimedStateView {
                    id,
                    email_addr_commit,
                    extension_addr,
                    sender,
                    state,
                    expiry_time: (ctx.now + m.config.unclaims_expiry_duration) as u128,
                },
            )
        }),
{
}

/// A fund registration of a zero amount fails and issues no id.
pub proof fn lemma_register_zero_amount_fails(
    m: HandlerState,
    ctx: CallContext,
    sender: Address,
    email_addr_commit: [u8; 32],
    token_addr: Address,
    expiry_time: u128,
)
    ensures
        register_fund_result(m, ctx, email_addr_commit, 0, expiry_time) is Err,
        register_fund_next(m, ctx, email_addr_commit, token_addr, 0, expiry_time) == m,
        register_fund_internal_result(m, ctx, email_addr_commit, 0) is Err,
        register_fund_internal_next(m, ctx, sender, email_addr_commit, token_addr, 0) == m,
{
}

/// A state registration of an empty state fails and issues no id.
pub proof fn lemma_register_empty_state_fails(
    m: HandlerState,
    ctx: CallContext,
    sender: Address,
    email_addr_commit: [u8; 32],
    extension_addr: Address,
    expiry_time: u128,
)
    ensures
        register_state_result(m, ctx, email_addr_commit, extension_addr, Seq::empty(), expiry_time)
            is Err,
        register_state_next(m, ctx, email_addr_commit, extension_addr, Seq::empty(), expiry_time)
            == m,
        register_state_internal_result(m, ctx, extension_addr, email_addr_commit, Seq::empty())
            is Err,
        register_state_internal_next(
            m,
            ctx,
            extension_addr,
            sender,
            email_addr_commit,
            Seq::empty(),
        ) == m,
{
}

/// A registration whose explicit expiry time is not after now fails and
/// changes nothing. (An expiry time of zero asks for the default duration.)
pub proof fn lemma_register_past_expiry_fails(
    m: HandlerState,
    ctx: CallContext,
    email_addr_commit: [u8; 32],
    token_addr: Address,
    extension_addr: Address,
    amount: u128,
    state: Seq<u8>,
    expiry_time: u128,
)
    requires
        expiry_time != 0,
        expiry_time <= ctx.now,
    ensures
        register_fund_result(m, ctx, email_addr_commit, amount, expiry_time) is Err,
        register_fund_next(m, ctx, email_addr_commit, token_addr, amount, expiry_time) == m,
        register_state_result(m, ctx, email_addr_commit, extension_addr, state, expiry_time)
            is Err,
        register_state_next(m, ctx, email_addr_commit, extension_addr, state, expiry_time) == m,
{
}

/// A registration whose payment differs from the claim gas times the fee per
/// gas, by more or by less, fails and changes nothing.
pub proof fn lemma_register_wrong_fee_fails(
    m: HandlerState,
    ctx: CallContext,
    email_addr_commit: [u8; 32],
    token_addr: Address,
    extension_addr: Address,
    amount: u128,
    state: Seq<u8>,
    expiry_time: u128,
)
    ensures
        ctx.value != fee_due(
            m.config.unclaimed_fund_claim_gas,
            m.config.max_fee_per_gas,
            ctx.base_fee_per_gas,
        ) ==> {
            &&& register_fund_result(m, ctx, email_addr_commit, amount, expiry_time) is Err
            &&& register_fund_next(m, ctx, email_addr_commit, token_addr, amount, expiry_time)
                == m
        },
        ctx.value != fee_due(
            m.config.unclaimed_state_claim_gas,
            m.config.max_fee_per_gas,
            ctx.base_fee_per_gas,
        ) ==> {
            &&& register_state_result(m, ctx, email_addr_commit, extension_addr, state, expiry_time)
                is Err
            &&& register_state_next(m, ctx, email_addr_commit, extension_addr, state, expiry_time)
                == m
        },
{
}

/// A valid claim by a relayer before expiry clears the fund and nothing
/// else, with both id counts unchanged; after it, a
/// claim by a relayer and a void by anyone of the same id fail with
/// `NotRegistered`, and no later state holds a live fund under that id.
pub proof fn lemma_claim_fund_is_final(
    m: HandlerState,
    ctx: CallContext,
    id: u128,
    env: Outcomes,
    ctx2: CallContext,
    env2: Outcomes,
    later: HandlerState,
)
    requires
        m.initialized != 0,
        env.caller_is_relayer,
        env.proof_valid,
        env.gas_left >= min_gas_to_forward(),
        env.transfer_ok,
        fund_at(m, id) matches Some(f) && ctx.now < f.expiry_time,
        evolves(claim_fund_next(m, ctx, id, env), later),
    ensures
        claim_fund_result(m, ctx, id, env) is Ok,
        fund_at(claim_fund_next(m, ctx, id, env), id) is None,
        env2.caller_is_relayer ==> claim_fund_result(claim_fund_next(m, ctx, id, env), ctx2, id, env2)
            == Err::<(), UnclaimsError>(UnclaimsError::NotRegistered),
        void_fund_result(claim_fund_next(m, ctx, id, env), ctx2, id, env2) == Err::<
            (),
            UnclaimsError,
        >(UnclaimsError::NotRegistered),
        fund_at(later, id) is None,
        claim_fund_next(m, ctx, id, env).funds.len() == m.funds.len(),
        forall|j: int| 0 <= j < m.funds.len() && j != id ==> claim_fund_next(m, ctx, id, env).funds[j] == m.funds[j],
        claim_fund_next(m, ctx, id, env).states == m.states,
{
}

/// A valid claim by a relayer before expiry clears the state and nothing
/// else, with both id counts unchanged; after it, a
/// claim by a relayer and a void by anyone of the same id fail with
/// `NotRegistered`, and no later state holds a live state under that id.
pub proof fn lemma_claim_state_is_final(
    m: HandlerState,
    ctx: CallContext,
    id: u128,
    env: Outcomes,
    ctx2: CallContext,
    env2: Outcomes,
    later: HandlerState,
)
    requires
        m.initialized != 0,
        env.caller_is_relayer,
        env.proof_valid,
        env.gas_left >= min_gas_to_forward(),
        state_at(m, id) matches Some(s) && ctx.now < s.expiry_time,
        evolves(claim_state_next(m, ctx, id, env), later),
    ensures
        claim_state_result(m, ctx, id, env) is Ok,
        state_at(claim_state_next(m, ctx, id, env), id) is None,
        env2.caller_is_relayer ==> claim_state_error(claim_state_next(m, ctx, id, env), ctx2, id, env2)
            == Some(UnclaimsError::NotRegistered),
        void_state_error(claim_state_next(m, ctx, id, env), ctx2, id, env2) == Some(
            UnclaimsError::NotRegistered,
        ),
        state_at(later, id) is None,
        claim_state_next(m, ctx, id, env).states.len() == m.states.len(),
        forall|j: int| 0 <= j < m.states.len() && j != id ==> claim_state_next(m, ctx, id, env).states[j] == m.states[j],
        claim_state_next(m, ctx, id, env).funds == m.funds,
{
}

/// A claim by a relayer of a live entry at or after its expiry time fails
/// with `AlreadyExpired`, whatever the proof, and changes nothing.
pub proof fn lemma_claim_after_expiry_fails(
    m: HandlerState,
    ctx: CallContext,
    id: u128,
    env: Outcomes,
)
    requires
        m.initialized != 0,
        env.caller_is_relayer,
    ensures
        fund_at(m, id) matches Some(f) && ctx.now >= f.expiry_time ==> {
            &&& claim_fund_error(m, ctx, id, env) == Some(UnclaimsError::AlreadyExpired)
            &&& claim_fund_next(m, ctx, id, env) == m
        },
        state_at(m, id) matches Some(s) && ctx.now >= s.expiry_time ==> {
            &&& claim_state_error(m, ctx, id, env) == Some(UnclaimsError::AlreadyExpired)
            &&& claim_state_next(m, ctx, id, env) == m
        },
{
}

/// A void of a live entry before its expiry time fails with `NotExpired`
/// and changes nothing, whoever calls.
pub proof fn lemma_void_before_expiry_fails(
    m: HandlerState,
    ctx: CallContext,
    id: u128,
    env: Outcomes,
)
    requires
        m.initialized != 0,
    ensures
        fund_at(m, id) matches Some(f) && ctx.now < f.expiry_time ==> {
            &&& void_fund_error(m, ctx, id, env) == Some(UnclaimsError::NotExpired)
            &&& void_fund_next(m, ctx, id, env) == m
        },
        state_at(m, id) matches Some(s) && ctx.now < s.expiry_time ==> {
            &&& void_state_error(m, ctx, id, env) == Some(UnclaimsError::NotExpired)
            &&& void_state_next(m, ctx, id, env) == m
        },
{
}

/// The depositor voids a live fund at or after its expiry time: the void
/// succeeds, provided the transfer back succeeds, and clears the fund and
/// nothing else, with both id counts unchanged.
pub proof fn lemma_void_fund_by_depositor(
    m: HandlerState,
    ctx: CallContext,
    id: u128,
    env: Outcomes,
)
    requires
        m.initialized != 0,
        fund_at(m, id) matches Some(f) && ctx.now >= f.expiry_time && ctx.caller@ == f.sender@,
        env.transfer_ok,
    ensures
        void_fund_result(m, ctx, id, env) is Ok,
        fund_at(void_fund_next(m, ctx, id, env), id) is None,
        void_fund_next(m, ctx, id, env).funds.len() == m.funds.len(),
        forall|j: int| 0 <= j < m.funds.len() && j != id ==> void_fund_next(m, ctx, id, env).funds[j] == m.funds[j],
        void_fund_next(m, ctx, id, env).states == m.states,
{
}

/// The depositor voids a live state at or after its expiry time: the void
/// succeeds, provided enough gas is left to tell the extension, and clears the
/// state and nothing else, with both id counts unchanged.
pub proof fn lemma_void_state_by_depositor(
    m: HandlerState,
    ctx: CallContext,
    id: u128,
    env: Outcomes,
)
    requires
        m.initialized != 0,
        state_at(m, id) matches Some(s) && ctx.now >= s.expiry_time && ctx.caller@ == s.sender@,
        env.gas_left >= min_gas_to_forward(),
    ensures
        void_state_result(m, ctx, id, env) is Ok,
        state_at(void_state_next(m, ctx, id, env), id) is None,
        void_state_next(m, ctx, id, env).states.len() == m.states.len(),
        forall|j: int| 0 <= j < m.states.len() && j != id ==> void_state_next(m, ctx, id, env).states[j] == m.states[j],
        void_state_next(m, ctx, id, env).funds == m.funds,
{
}

/// A claim by a caller the relayer registry does not know fails with
/// `Unauthorized`, even with a valid proof, and changes nothing.
pub proof fn lemma_claim_by_non_relayer_fails(
    m: HandlerState,
    ctx: CallContext,
    id: u128,
    env: Outcomes,
)
    requires
        m.initialized != 0,
        !env.caller_is_relayer,
    ensures
        claim_fund_error(m, ctx, id, env) == Some(UnclaimsError::Unauthorized),
        claim_fund_next(m, ctx, id, env) == m,
        claim_state_error(m, ctx, id, env) == Some(UnclaimsError::Unauthorized),
        claim_state_next(m, ctx, id, env) == m,
{
}

/// A claim with a proof the verifier rejects fails and leaves the registry
/// exactly as it was.
pub proof fn lemma_claim_with_invalid_proof_changes_nothing(
    m: HandlerState,
    ctx: CallContext,
    id: u128,
    env: Outcomes,
)
    requires
        !env.proof_valid,
    ensures
        claim_fund_result(m, ctx, id, env) is Err,
        claim_fund_next(m, ctx, id, env) == m,
        claim_state_result(m, ctx, id, env) is Err,
        claim_state_next(m, ctx, id, env) == m,
{
}

} // verus!
