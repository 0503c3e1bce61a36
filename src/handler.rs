//! The registry of unclaimed funds and unclaimed states.
//!
//! Every call takes the registry by `&mut self`, so no two calls can be in
//! flight on one registry: the whole register, claim and void surface is one
//! critical section. A call either completes or returns an error and leaves
//! the registry as it was.

use vstd::prelude::*;

use crate::address::{all_zero, is_zero_word, Address};
use crate::error::UnclaimsError;
use crate::model::{
    admin_changes_in, beacon_upgrades_in, claim_fund_next, claim_fund_result, claim_state_next,
    claim_state_result, counts_fit, expiry_ok, fund_at, fund_claimed_event, fund_claims_in,
    fund_registered_event, fund_registrations_in, fund_voided_event, fund_voids_in, ids_match,
    initializations_in, one_appended, ownership_transfers_in, register_fund_internal_next,
    register_fund_internal_result, register_fund_next, register_fund_result,
    register_state_internal_next, register_state_internal_result, register_state_next,
    register_state_result, resolved_expiry, state_at, state_claimed_event, state_claims_in,
    state_registered_event, state_registrations_in, state_view, state_voided_event, state_voids_in,
    upgrades_in, void_fund_next, void_fund_result, void_state_next, void_state_result, HandlerState,
};
use crate::policy::{fee_matches, forwarded_gas_budget};
use crate::types::{
    AdminChangedFilter, BeaconUpgradedFilter, CallContext, ClaimProofInputs,
    ClaimUnclaimedStateReturn, InitializeCall, InitializedFilter, Outcomes,
    OwnershipTransferredFilter, UnclaimedFund, UnclaimedFundClaimedFilter, UnclaimedFundOfIdReturn,
    UnclaimedFundRegisteredFilter, UnclaimedFundVoidedFilter, UnclaimedState,
    UnclaimedStateClaimedFilter, UnclaimedStateOfIdReturn, UnclaimedStateRegisteredFilter,
    UnclaimedStateView, UnclaimedStateVoidedFilter, UnclaimsHandlerEvents, UpgradedFilter, VoidUnclaimedStateReturn,
};

verus! {

/// An escrow registry: funds and extension state held for recipients known by
/// an email address commitment, released to them on a valid proof or returned
/// to the depositor after expiry.
pub struct UnclaimsHandler {
    address: Address,
    owner: Address,
    initialized: u8,
    implementation: Address,
    config: InitializeCall,
    funds: Vec<Option<UnclaimedFund>>,
    states: Vec<Option<UnclaimedState>>,
    log: Vec<UnclaimsHandlerEvents>,
}

impl View for UnclaimsHandler {
    type V = HandlerState;

    closed spec fn view(&self) -> HandlerState {
        HandlerState {
            address: self.address,
            owner: self.owner,
            initialized: self.initialized,
            implementation: self.implementation,
            config: self.config,
            funds: self.funds@,
            states: self.states@.map_values(|o: Option<UnclaimedState>| state_view(o)),
        }
    }
}

/// The expiry a registration asks for, where it is strictly in the future and representable.
fn checked_expiry(requested: u128, now: u128, duration: u128) -> (r: Option<u128>)
    ensures
        r is Some <==> expiry_ok(resolved_expiry(requested, now, duration), now),
        r matches Some(e) ==> e == resolved_expiry(requested, now, duration),
{
    let expiry: u128 = if requested == 0 {
        match now.checked_add(duration) {
            Some(e) => e,
            None => return None,
        }
    } else {
        requested
    };
    if expiry > now {
        Some(expiry)
    } else {
        None
    }
}

impl UnclaimsHandler {
    /// The events logged so far, oldest first.
    pub closed spec fn event_log(&self) -> Seq<UnclaimsHandlerEvents> {
        self.log@
    }

    proof fn lemma_push_state(&self, s: UnclaimedState, after: Seq<Option<UnclaimedState>>)
        requires
            after == self.states@.push(Some(s)),
        ensures
            after.map_values(|o: Option<UnclaimedState>| state_view(o)) == self@.states.push(
                Some(s@),
            ),
    {
        assert(after.map_values(|o: Option<UnclaimedState>| state_view(o)) =~= self@.states.push(
            Some(s@),
        ));
    }

    proof fn lemma_clear_state(&self, id: int, after: Seq<Option<UnclaimedState>>)
        requires
            0 <= id < self.states@.len(),
            after == self.states@.update(id, None),
        ensures
            after.map_values(|o: Option<UnclaimedState>| state_view(o)) == self@.states.update(
                id,
                None,
            ),
    {
        assert(after.map_values(|o: Option<UnclaimedState>| state_view(o)) =~= self@.states.update(
            id,
            None,
        ));
    }

    /// The id counts of a registry always fit a `usize`.
    pub proof fn lemma_counts_fit(&self)
        ensures
            counts_fit(self@),
    {
        assert(self.funds@.len() == self.funds.len());
        assert(self.states@.len() == self.states.len());
    }

    /// A registry at `address` that has not been initialized: no owner, no
    /// entries, no events.
    pub fn new(address: Address) -> (r: UnclaimsHandler)
        ensures
            r@.address == address,
            all_zero(r@.owner@),
            r@.initialized == 0,
            all_zero(r@.implementation@),
            all_zero(r@.config.relayer_handler@),
            all_zero(r@.config.account_handler@),
            all_zero(r@.config.verifier@),
            r@.config.unclaimed_fund_claim_gas == 0,
            r@.config.unclaimed_state_claim_gas == 0,
            r@.config.unclaims_expiry_duration == 0,
            r@.config.max_fee_per_gas == 0,
            r@.funds.len() == 0,
            r@.states.len() == 0,
            r.event_log().len() == 0,
            ids_match(r@),
    {
        UnclaimsHandler {
            address,
            owner: Address::zero(),
            initialized: 0,
            implementation: Address::zero(),
            config: InitializeCall {
                relayer_handler: Address::zero(),
                account_handler: Address::zero(),
                verifier: Address::zero(),
                unclaimed_fund_claim_gas: 0,
                unclaimed_state_claim_gas: 0,
                unclaims_expiry_duration: 0,
                max_fee_per_gas: 0,
            },
            funds: Vec::new(),
            states: Vec::new(),
            log: Vec::new(),
        }
    }

    /// Escrows `amount` of `token_addr` from the caller for the holder of the
    /// email address committed to by `email_addr_commit`, until `expiry_time`
    /// (zero asks for the default duration from now). The attached payment must
    /// be exactly the fee for the fund claim gas. Returns the new fund's id.
    pub fn register_unclaimed_fund(
        &mut self,
        ctx: &CallContext,
        email_addr_commit: [u8; 32],
        token_addr: Address,
        amount: u128,
        expiry_time: u128,
        announce_commit_randomness: u128,
        announce_email_addr: String,
    ) -> (r: Result<u128, UnclaimsError>)
        ensures
            r == register_fund_result(old(self)@, *ctx, email_addr_commit, amount, expiry_time),
            final(self)@ == register_fund_next(
                old(self)@,
                *ctx,
                email_addr_commit,
                token_addr,
                amount,
                expiry_time,
            ),
            r matches Ok(id) ==> {
                &&& one_appended(old(self).event_log(), final(self).event_log())
                &&& fund_registered_event(
                    final(self).event_log().last(),
                    final(self)@.funds[id as int].unwrap(),
                    announce_commit_randomness,
                    announce_email_addr@,
                )
            },
            r is Err ==> final(self).event_log() == old(self).event_log(),
    {
        if self.initialized == 0 {
            return Err(UnclaimsError::NotInitialized);
        }
        if is_zero_word(&email_addr_commit) {
            return Err(UnclaimsError::InvalidCommitment);
        }
        if amount == 0 {
            return Err(UnclaimsError::EmptyPayload);
        }
        let expiry = match checked_expiry(expiry_time, ctx.now, self.config.unclaims_expiry_duration) {
            Some(e) => e,
            None => return Err(UnclaimsError::InvalidExpiry),
        };
        if !fee_matches(
            self.config.unclaimed_fund_claim_gas,
            self.config.max_fee_per_gas,
            ctx.base_fee_per_gas,
            ctx.value,
        ) {
            return Err(UnclaimsError::InvalidFee);
        }
        let id = self.funds.len() as u128;
        let fund = UnclaimedFund {
            id,
            email_addr_commit,
            sender: ctx.caller,
            token_addr,
            amount,
            expiry_time: expiry,
        };
        self.funds.push(Some(fund));
        self.log.push(
            UnclaimsHandlerEvents::UnclaimedFundRegisteredFilter(
                UnclaimedFundRegisteredFilter {
                    id,
                    email_addr_commit,
                    token_addr,
                    amount,
                    sender: ctx.caller,
                    expiry_time: expiry,
                    commitment_randomness: announce_commit_randomness,
                    email_addr: announce_email_addr,
                },
            ),
        );
        proof {
            assert(self.log@.drop_last() =~= old(self).log@);
        }
        Ok(id)
    }

    /// Escrows fund value on behalf of `sender`, as the owner does when a
    /// transfer is addressed to an email address without an account. No fee is
    /// asked and the expiry is the default duration from now. Only the owner may
    /// call. Returns the new fund's id.
    pub fn register_unclaimed_fund_internal(
        &mut self,
        ctx: &CallContext,
        sender: Address,
        email_addr_commit: [u8; 32],
        token_addr: Address,
        amount: u128,
    ) -> (r: Result<u128, UnclaimsError>)
        ensures
            r == register_fund_internal_result(old(self)@, *ctx, email_addr_commit, amount),
            final(self)@ == register_fund_internal_next(
                old(self)@,
                *ctx,
                sender,
                email_addr_commit,
                token_addr,
                amount,
            ),
            r matches Ok(id) ==> {
                &&& one_appended(old(self).event_log(), final(self).event_log())
                &&& fund_registered_event(
                    final(self).event_log().last(),
                    final(self)@.funds[id as int].unwrap(),
                    0,
                    Seq::empty(),
                )
            },
            r is Err ==> final(self).event_log() == old(self).event_log(),
    {
        if self.initialized == 0 {
            return Err(UnclaimsError::NotInitialized);
        }
        if !(ctx.caller == self.owner) {
            return Err(UnclaimsError::Unauthorized);
        }
        if is_zero_word(&email_addr_commit) {
            return Err(UnclaimsError::InvalidCommitment);
        }
        if amount == 0 {
            return Err(UnclaimsError::EmptyPayload);
        }
        let expiry = match checked_expiry(0, ctx.now, self.config.unclaims_expiry_duration) {
            Some(e) => e,
            None => return Err(UnclaimsError::InvalidExpiry),
        };
        let id = self.funds.len() as u128;
        let fund = UnclaimedFund {
            id,
            email_addr_commit,
            sender,
            token_addr,
            amount,
            expiry_time: expiry,
        };
        self.funds.push(Some(fund));
        self.log.push(
            UnclaimsHandlerEvents::UnclaimedFundRegisteredFilter(
                UnclaimedFundRegisteredFilter {
                    id,
                    email_addr_commit,
                    token_addr,
                    amount,
                    sender,
                    expiry_time: expiry,
                    commitment_randomness: 0,
                    email_addr: String::new(),
                },
            ),
        );
        proof {
            assert(self.log@.drop_last() =~= old(self).log@);
        }
        Ok(id)
    }

    /// Escrows the extension state `state` from the caller for the holder of
    /// the email address committed to by `email_addr_commit`, until
    /// `expiry_time` (zero asks for the default duration from now). The
    /// attached payment must be exactly the fee for the state claim gas.
    /// Returns the new state's id.
    pub fn register_unclaimed_state(
        &mut self,
        ctx: &CallContext,
        email_addr_commit: [u8; 32],
        extension_addr: Address,
        state: Vec<u8>,
        expiry_time: u128,
        announce_commit_randomness: u128,
        announce_email_addr: String,
    ) -> (r: Result<u128, UnclaimsError>)
        ensures
            r == register_state_result(
                old(self)@,
                *ctx,
                email_addr_commit,
                extension_addr,
                state@,
                expiry_time,
            ),
            final(self)@ == register_state_next(
                old(self)@,
                *ctx,
                email_addr_commit,
                extension_addr,
                state@,
                expiry_time,
            ),
            r matches Ok(id) ==> {
                &&& one_appended(old(self).event_log(), final(self).event_log())
                &&& state_registered_event(
                    final(self).event_log().last(),
                    final(self)@.states[id as int].unwrap(),
                    announce_commit_randomness,
                    announce_email_addr@,
                )
            },
            r is Err ==> final(self).event_log() == old(self).event_log(),
    {
        if self.initialized == 0 {
            return Err(UnclaimsError::NotInitialized);
        }
        if is_zero_word(&email_addr_commit) {
            return Err(UnclaimsError::InvalidCommitment);
        }
        if extension_addr.is_zero() {
            return Err(UnclaimsError::ZeroAddress);
        }
        if state.len() == 0 {
            return Err(UnclaimsError::EmptyPayload);
        }
        let expiry = match checked_expiry(expiry_time, ctx.now, self.config.unclaims_expiry_duration) {
            Some(e) => e,
            None => return Err(UnclaimsError::InvalidExpiry),
        };
        if !fee_matches(
            self.config.unclaimed_state_claim_gas,
            self.config.max_fee_per_gas,
            ctx.base_fee_per_gas,
            ctx.value,
        ) {
            return Err(UnclaimsError::InvalidFee);
        }
        let id = self.states.len() as u128;
        let entry = UnclaimedState {
            id,
            email_addr_commit,
            extension_addr,
            sender: ctx.caller,
            state: state.clone(),
            expiry_time: expiry,
        };
        proof {
            self.lemma_push_state(entry, self.states@.push(Some(entry)));
        }
        self.states.push(Some(entry));
        self.log.push(
            UnclaimsHandlerEvents::UnclaimedStateRegisteredFilter(
                UnclaimedStateRegisteredFilter {
                    id,
                    email_addr_commit,
                    extension_addr,
                    sender: ctx.caller,
                    expiry_time: expiry,
                    state,
                    commitment_randomness: announce_commit_randomness,
                    email_addr: announce_email_addr,
                },
            ),
        );
        proof {
            assert(self.log@.drop_last() =~= old(self).log@);
        }
        Ok(id)
    }

    /// Escrows extension state on behalf of `sender`, as the owner does for an
    /// extension call addressed to an email address without an account. No fee
    /// is asked and the expiry is the default duration from now. Only the owner
    /// may call. Returns the new state's id.
    pub fn register_unclaimed_state_internal(
        &mut self,
        ctx: &CallContext,
        extension_addr: Address,
        sender: Address,
        recipient_email_addr_commit: [u8; 32],
        state: Vec<u8>,
    ) -> (r: Result<u128, UnclaimsError>)
        ensures
            r == register_state_internal_result(
                old(self)@,
                *ctx,
                extension_addr,
                recipient_email_addr_commit,
                state@,
            ),
            final(self)@ == register_state_internal_next(
                old(self)@,
                *ctx,
                extension_addr,
                sender,
                recipient_email_addr_commit,
                state@,
            ),
            r matches Ok(id) ==> {
                &&& one_appended(old(self).event_log(), final(self).event_log())
                &&& state_registered_event(
                    final(self).event_log().last(),
                    final(self)@.states[id as int].unwrap(),
                    0,
                    Seq::empty(),
                )
            },
            r is Err ==> final(self).event_log() == old(self).event_log(),
    {
        if self.initialized == 0 {
            return Err(UnclaimsError::NotInitialized);
        }
        if !(ctx.caller == self.owner) {
            return Err(UnclaimsError::Unauthorized);
        }
        if is_zero_word(&recipient_email_addr_commit) {
            return Err(UnclaimsError::InvalidCommitment);
        }
        if extension_addr.is_zero() {
            return Err(UnclaimsError::ZeroAddress);
        }
        if state.len() == 0 {
            return Err(UnclaimsError::EmptyPayload);
        }
        let expiry = match checked_expiry(0, ctx.now, self.config.unclaims_expiry_duration) {
            Some(e) => e,
            None => return Err(UnclaimsError::InvalidExpiry),
        };
        let id = self.states.len() as u128;
        let entry = UnclaimedState {
            id,
            email_addr_commit: recipient_email_addr_commit,
            extension_addr,
            sender,
            state: state.clone(),
            expiry_time: expiry,
        };
        proof {
            self.lemma_push_state(entry, self.states@.push(Some(entry)));
        }
        self.states.push(Some(entry));
        self.log.push(
            UnclaimsHandlerEvents::UnclaimedStateRegisteredFilter(
                UnclaimedStateRegisteredFilter {
                    id,
                    email_addr_commit: recipient_email_addr_commit,
                    extension_addr,
                    sender,
                    expiry_time: expiry,
                    state,
                    commitment_randomness: 0,
                    email_addr: String::new(),
                },
            ),
        );
        proof {
            assert(self.log@.drop_last() =~= old(self).log@);
        }
        Ok(id)
    }

    /// Releases fund `id` to the account its recipient's salt resolves to
    /// (`env.recipient`). The caller must be a relayer, the fund live and not
    /// expired, the proof valid, enough gas left, and the transfer must
    /// succeed; the fund is cleared before the value moves.
    pub fn claim_unclaimed_fund(&mut self, ctx: &CallContext, id: u128, env: Outcomes) -> (r: Result<
        (),
        UnclaimsError,
    >)
        ensures
            r == claim_fund_result(old(self)@, *ctx, id, env),
            final(self)@ == claim_fund_next(old(self)@, *ctx, id, env),
            r is Ok ==> final(self).event_log() == old(self).event_log().push(
                fund_claimed_event(id, fund_at(old(self)@, id).unwrap(), env.recipient),
            ),
            r is Err ==> final(self).event_log() == old(self).event_log(),
    {
        if self.initialized == 0 {
            return Err(UnclaimsError::NotInitialized);
        }
        if !env.caller_is_relayer {
            return Err(UnclaimsError::Unauthorized);
        }
        if id >= self.funds.len() as u128 {
            return Err(UnclaimsError::NotFound);
        }
        let idx = id as usize;
        let fund = match self.funds[idx] {
            Some(f) => f,
            None => return Err(UnclaimsError::NotRegistered),
        };
        if ctx.now >= fund.expiry_time {
            return Err(UnclaimsError::AlreadyExpired);
        }
        if !env.proof_valid {
            return Err(UnclaimsError::InvalidProof);
        }
        if forwarded_gas_budget(env.gas_left, self.config.unclaimed_fund_claim_gas).is_none() {
            return Err(UnclaimsError::InsufficientGas);
        }
        if !env.transfer_ok {
            return Err(UnclaimsError::TransferFailed);
        }
        self.funds.set(idx, None);
        self.log.push(
            UnclaimsHandlerEvents::UnclaimedFundClaimedFilter(
                UnclaimedFundClaimedFilter {
                    id,
                    email_addr_commit: fund.email_addr_commit,
                    token_addr: fund.token_addr,
                    amount: fund.amount,
                    recipient: env.recipient,
                },
            ),
        );
        Ok(())
    }

    /// Releases state `id` to the account its recipient's salt resolves to
    /// (`env.recipient`). The caller must be a relayer, the state live and not
    /// expired, the proof valid and enough gas left. The state is cleared
    /// whether or not the extension's callback succeeded; what the callback
    /// answered is returned.
    pub fn claim_unclaimed_state(&mut self, ctx: &CallContext, id: u128, env: Outcomes) -> (r:
        Result<ClaimUnclaimedStateReturn, UnclaimsError>)
        ensures
            r == claim_state_result(old(self)@, *ctx, id, env),
            final(self)@ == claim_state_next(old(self)@, *ctx, id, env),
            r is Ok ==> final(self).event_log() == old(self).event_log().push(
                state_claimed_event(id, state_at(old(self)@, id).unwrap(), env.recipient),
            ),
            r is Err ==> final(self).event_log() == old(self).event_log(),
    {
        if self.initialized == 0 {
            return Err(UnclaimsError::NotInitialized);
        }
        if !env.caller_is_relayer {
            return Err(UnclaimsError::Unauthorized);
        }
        if id >= self.states.len() as u128 {
            return Err(UnclaimsError::NotFound);
        }
        let idx = id as usize;
        let (email_addr_commit, expiry_time) = match &self.states[idx] {
            Some(s) => (s.email_addr_commit, s.expiry_time),
            None => return Err(UnclaimsError::NotRegistered),
        };
        if ctx.now >= expiry_time {
            return Err(UnclaimsError::AlreadyExpired);
        }
        if !env.proof_valid {
            return Err(UnclaimsError::InvalidProof);
        }
        if forwarded_gas_budget(env.gas_left, self.config.unclaimed_state_claim_gas).is_none() {
            return Err(UnclaimsError::InsufficientGas);
        }
        proof {
            self.lemma_clear_state(idx as int, self.states@.update(idx as int, None));
        }
        self.states.set(idx, None);
        self.log.push(
            UnclaimsHandlerEvents::UnclaimedStateClaimedFilter(
                UnclaimedStateClaimedFilter { id, email_addr_commit, recipient: env.recipient },
            ),
        );
        Ok(
            ClaimUnclaimedStateReturn {
                success: env.callback_success,
                return_data: env.callback_return_data,
            },
        )
    }

    /// Returns fund `id` to its depositor once it has expired. The caller must
    /// be the depositor or a relayer, and the transfer back must succeed.
    pub fn void_unclaimed_fund(&mut self, ctx: &CallContext, id: u128, env: Outcomes) -> (r: Result<
        (),
        UnclaimsError,
    >)
        ensures
            r == void_fund_result(old(self)@, *ctx, id, env),
            final(self)@ == void_fund_next(old(self)@, *ctx, id, env),
            r is Ok ==> final(self).event_log() == old(self).event_log().push(
                fund_voided_event(id, fund_at(old(self)@, id).unwrap()),
            ),
            r is Err ==> final(self).event_log() == old(self).event_log(),
    {
        if self.initialized == 0 {
            return Err(UnclaimsError::NotInitialized);
        }
        if id >= self.funds.len() as u128 {
            return Err(UnclaimsError::NotFound);
        }
        let idx = id as usize;
        let fund = match self.funds[idx] {
            Some(f) => f,
            None => return Err(UnclaimsError::NotRegistered),
        };
        if ctx.now < fund.expiry_time {
            return Err(UnclaimsError::NotExpired);
        }
        if !(ctx.caller == fund.sender) && !env.caller_is_relayer {
            return Err(UnclaimsError::Unauthorized);
        }
        if !env.transfer_ok {
            return Err(UnclaimsError::TransferFailed);
        }
        self.funds.set(idx, None);
        self.log.push(
            UnclaimsHandlerEvents::UnclaimedFundVoidedFilter(
                UnclaimedFundVoidedFilter {
                    id,
                    email_addr_commit: fund.email_addr_commit,
                    token_addr: fund.token_addr,
                    amount: fund.amount,
                    sender: fund.sender,
                },
            ),
        );
        Ok(())
    }

    /// Clears state `id` once it has expired, and tells its extension. The
    /// caller must be the depositor or a relayer, and enough gas must be left
    /// to forward the extension's callback, whose answer is returned.
    pub fn void_unclaimed_state(&mut self, ctx: &CallContext, id: u128, env: Outcomes) -> (r: Result<
        VoidUnclaimedStateReturn,
        UnclaimsError,
    >)
        ensures
            r == void_state_result(old(self)@, *ctx, id, env),
            final(self)@ == void_state_next(old(self)@, *ctx, id, env),
            r is Ok ==> final(self).event_log() == old(self).event_log().push(
                state_voided_event(id, state_at(old(self)@, id).unwrap()),
            ),
            r is Err ==> final(self).event_log() == old(self).event_log(),
    {
        if self.initialized == 0 {
            return Err(UnclaimsError::NotInitialized);
        }
        if id >= self.states.len() as u128 {
            return Err(UnclaimsError::NotFound);
        }
        let idx = id as usize;
        let (email_addr_commit, expiry_time, sender) = match &self.states[idx] {
            Some(s) => (s.email_addr_commit, s.expiry_time, s.sender),
            None => return Err(UnclaimsError::NotRegistered),
        };
        if ctx.now < expiry_time {
            return Err(UnclaimsError::NotExpired);
        }
        if !(ctx.caller == sender) && !env.caller_is_relayer {
            return Err(UnclaimsError::Unauthorized);
        }
        if forwarded_gas_budget(env.gas_left, self.config.unclaimed_state_claim_gas).is_none() {
            return Err(UnclaimsError::InsufficientGas);
        }
        proof {
            self.lemma_clear_state(idx as int, self.states@.update(idx as int, None));
        }
        self.states.set(idx, None);
        self.log.push(
            UnclaimsHandlerEvents::UnclaimedStateVoidedFilter(
                UnclaimedStateVoidedFilter { id, email_addr_commit, sender },
            ),
        );
        Ok(
            VoidUnclaimedStateReturn {
                success: env.callback_success,
                return_data: env.callback_return_data,
            },
        )
    }

    /// The live fund with id `id`: `None` where the id was never issued or
    /// the fund has been claimed or voided.
    pub fn get_unclaimed_fund(&self, id: u128) -> (r: Option<UnclaimedFund>)
        ensures
            r == fund_at(self@, id),
    {
        if id < self.funds.len() as u128 {
            self.funds[id as usize]
        } else {
            None
        }
    }

    /// The live state with id `id`: `None` where the id was never issued or
    /// the state has been claimed or voided.
    pub fn get_unclaimed_state(&self, id: u128) -> (r: Option<UnclaimedState>)
        ensures
            state_view(r) == state_at(self@, id),
    {
        if id < self.states.len() as u128 {
            match &self.states[id as usize] {
                Some(s) => Some(s.duplicate()),
                None => None,
            }
        } else {
            None
        }
    }

    /// What the proof of a claim of fund `id` by `relayer` for the account
    /// salted with `recipient_account_salt` must be verified against: `None`
    /// where no fund `id` is live.
    pub fn fund_claim_proof_inputs(
        &self,
        id: u128,
        recipient_account_salt: [u8; 32],
        relayer: Address,
    ) -> (r: Option<ClaimProofInputs>)
        ensures
            r is Some <==> fund_at(self@, id) is Some,
            r matches Some(p) ==> p == (ClaimProofInputs {
                id,
                email_addr_commit: fund_at(self@, id).unwrap().email_addr_commit,
                recipient_account_salt,
                relayer,
            }),
    {
        match self.get_unclaimed_fund(id) {
            Some(f) => Some(
                ClaimProofInputs {
                    id,
                    email_addr_commit: f.email_addr_commit,
                    recipient_account_salt,
                    relayer,
                },
            ),
            None => None,
        }
    }

    /// What the proof of a claim of state `id` by `relayer` for the account
    /// salted with `recipient_account_salt` must be verified against: `None`
    /// where no state `id` is live.
    pub fn state_claim_proof_inputs(
        &self,
        id: u128,
        recipient_account_salt: [u8; 32],
        relayer: Address,
    ) -> (r: Option<ClaimProofInputs>)
        ensures
            r is Some <==> state_at(self@, id) is Some,
            r matches Some(p) ==> p == (ClaimProofInputs {
                id,
                email_addr_commit: state_at(self@, id).unwrap().email_addr_commit,
                recipient_account_salt,
                relayer,
            }),
    {
        if id < self.states.len() as u128 {
            match &self.states[id as usize] {
                Some(s) => Some(
                    ClaimProofInputs {
                        id,
                        email_addr_commit: s.email_addr_commit,
                        recipient_account_salt,
                        relayer,
                    },
                ),
                None => None,
            }
        } else {
            None
        }
    }

    /// The number of fund ids issued so far, which is the next fund id.
    pub fn num_unclaimed_funds(&self) -> (r: u128)
        ensures
            r == self@.funds.len(),
    {
        self.funds.len() as u128
    }

    /// The number of state ids issued so far, which is the next state id.
    pub fn num_unclaimed_states(&self) -> (r: u128)
        ensures
            r == self@.states.len(),
    {
        self.states.len() as u128
    }

    /// Sets the collaborators and policy parameters, makes the caller the
    /// owner, and opens both entry stores empty. A registry is initialized
    /// once; until then every registration, claim and void fails with
    /// `NotInitialized`.
    pub fn initialize(
        &mut self,
        ctx: &CallContext,
        relayer_handler: Address,
        account_handler: Address,
        verifier: Address,
        unclaimed_fund_claim_gas: u128,
        unclaimed_state_claim_gas: u128,
        unclaims_expiry_duration: u128,
        max_fee_per_gas: u128,
    ) -> (r: Result<(), UnclaimsError>)
        ensures
            old(self)@.initialized != 0 ==> {
                &&& r == Err::<(), UnclaimsError>(UnclaimsError::AlreadyInitialized)
                &&& final(self)@ == old(self)@
                &&& final(self).event_log() == old(self).event_log()
            },
            old(self)@.initialized == 0 ==> {
                &&& r is Ok
                &&& final(self)@ == (HandlerState {
                    owner: ctx.caller,
                    initialized: 1,
                    config: InitializeCall {
                        relayer_handler,
                        account_handler,
                        verifier,
                        unclaimed_fund_claim_gas,
                        unclaimed_state_claim_gas,
                        unclaims_expiry_duration,
                        max_fee_per_gas,
                    },
                    funds: Seq::empty(),
                    states: Seq::empty(),
                    ..old(self)@
                })
                &&& final(self).event_log() == old(self).event_log().push(
                    UnclaimsHandlerEvents::OwnershipTransferredFilter(
                        OwnershipTransferredFilter {
                            previous_owner: old(self)@.owner,
                            new_owner: ctx.caller,
                        },
                    ),
                ).push(UnclaimsHandlerEvents::InitializedFilter(InitializedFilter { version: 1 }))
            },
    {
        if self.initialized != 0 {
            return Err(UnclaimsError::AlreadyInitialized);
        }
        let previous_owner = self.owner;
        self.owner = ctx.caller;
        self.initialized = 1;
        self.config = InitializeCall {
            relayer_handler,
            account_handler,
            verifier,
            unclaimed_fund_claim_gas,
            unclaimed_state_claim_gas,
            unclaims_expiry_duration,
            max_fee_per_gas,
        };
        self.log.push(
            UnclaimsHandlerEvents::OwnershipTransferredFilter(
                OwnershipTransferredFilter { previous_owner, new_owner: ctx.caller },
            ),
        );
        self.funds = Vec::new();
        self.states = Vec::new();
        self.log.push(UnclaimsHandlerEvents::InitializedFilter(InitializedFilter { version: 1 }));
        proof {
            assert(self@.states =~= Seq::<Option<UnclaimedStateView>>::empty());
        }
        Ok(())
    }

    /// A registry at `address`, initialized by the caller of `ctx` with `args`.
    pub fn deploy(address: Address, ctx: &CallContext, args: InitializeCall) -> (r: UnclaimsHandler)
        ensures
            r@.address == address,
            r@.owner == ctx.caller,
            r@.initialized == 1,
            all_zero(r@.implementation@),
            r@.config == args,
            r@.funds.len() == 0,
            r@.states.len() == 0,
            r.event_log().len() == 2,
            ids_match(r@),
            r.event_log()[0] matches UnclaimsHandlerEvents::OwnershipTransferredFilter(e) && all_zero(
                e.previous_owner@,
            ) && e.new_owner == ctx.caller,
            r.event_log()[1] == UnclaimsHandlerEvents::InitializedFilter(
                InitializedFilter { version: 1 },
            ),
    {
        let mut h = UnclaimsHandler::new(address);
        let _ = h.initialize(
            ctx,
            args.relayer_handler,
            args.account_handler,
            args.verifier,
            args.unclaimed_fund_claim_gas,
            args.unclaimed_state_claim_gas,
            args.unclaims_expiry_duration,
            args.max_fee_per_gas,
        );
        h
    }

    /// Hands ownership to `new_owner`. Only the owner may call, and the new
    /// owner must not be the zero address.
    pub fn transfer_ownership(&mut self, ctx: &CallContext, new_owner: Address) -> (r: Result<
        (),
        UnclaimsError,
    >)
        ensures
            ctx.caller@ != old(self)@.owner@ ==> r == Err::<(), UnclaimsError>(
                UnclaimsError::Unauthorized,
            ),
            ctx.caller@ == old(self)@.owner@ && all_zero(new_owner@) ==> r == Err::<
                (),
                UnclaimsError,
            >(UnclaimsError::ZeroAddress),
            ctx.caller@ == old(self)@.owner@ && !all_zero(new_owner@) ==> r is Ok,
            r is Err ==> final(self)@ == old(self)@ && final(self).event_log() == old(
                self,
            ).event_log(),
            r is Ok ==> {
                &&& ctx.caller@ == old(self)@.owner@ && !all_zero(new_owner@)
                &&& final(self)@ == (HandlerState { owner: new_owner, ..old(self)@ })
                &&& final(self).event_log() == old(self).event_log().push(
                    UnclaimsHandlerEvents::OwnershipTransferredFilter(
                        OwnershipTransferredFilter {
                            previous_owner: old(self)@.owner,
                            new_owner,
                        },
                    ),
                )
            },
    {
        if !(ctx.caller == self.owner) {
            return Err(UnclaimsError::Unauthorized);
        }
        if new_owner.is_zero() {
            return Err(UnclaimsError::ZeroAddress);
        }
        let previous_owner = self.owner;
        self.owner = new_owner;
        self.log.push(
            UnclaimsHandlerEvents::OwnershipTransferredFilter(
                OwnershipTransferredFilter { previous_owner, new_owner },
            ),
        );
        Ok(())
    }

    /// Leaves the registry without an owner. Only the owner may call.
    pub fn renounce_ownership(&mut self, ctx: &CallContext) -> (r: Result<(), UnclaimsError>)
        ensures
            ctx.caller@ != old(self)@.owner@ ==> {
                &&& r == Err::<(), UnclaimsError>(UnclaimsError::Unauthorized)
                &&& final(self)@ == old(self)@
                &&& final(self).event_log() == old(self).event_log()
            },
            ctx.caller@ == old(self)@.owner@ ==> {
                &&& r is Ok
                &&& all_zero(final(self)@.owner@)
                &&& final(self)@ == (HandlerState { owner: final(self)@.owner, ..old(self)@ })
                &&& final(self).event_log() == old(self).event_log().push(
                    UnclaimsHandlerEvents::OwnershipTransferredFilter(
                        OwnershipTransferredFilter {
                            previous_owner: old(self)@.owner,
                            new_owner: final(self)@.owner,
                        },
                    ),
                )
            },
    {
        if !(ctx.caller == self.owner) {
            return Err(UnclaimsError::Unauthorized);
        }
        let previous_owner = self.owner;
        let new_owner = Address::zero();
        self.owner = new_owner;
        self.log.push(
            UnclaimsHandlerEvents::OwnershipTransferredFilter(
                OwnershipTransferredFilter { previous_owner, new_owner },
            ),
        );
        Ok(())
    }

    /// Points the registry at a new implementation. Only the owner may call,
    /// and the implementation must not be the zero address.
    pub fn upgrade_to(&mut self, ctx: &CallContext, new_implementation: Address) -> (r: Result<
        (),
        UnclaimsError,
    >)
        ensures
            ctx.caller@ != old(self)@.owner@ ==> r == Err::<(), UnclaimsError>(
                UnclaimsError::Unauthorized,
            ),
            ctx.caller@ == old(self)@.owner@ && all_zero(new_implementation@) ==> r == Err::<
                (),
                UnclaimsError,
            >(UnclaimsError::ZeroAddress),
            ctx.caller@ == old(self)@.owner@ && !all_zero(new_implementation@) ==> r is Ok,
            r is Err ==> final(self)@ == old(self)@ && final(self).event_log() == old(
                self,
            ).event_log(),
            r is Ok ==> {
                &&& ctx.caller@ == old(self)@.owner@ && !all_zero(new_implementation@)
                &&& final(self)@ == (HandlerState {
                    implementation: new_implementation,
                    ..old(self)@
                })
                &&& final(self).event_log() == old(self).event_log().push(
                    UnclaimsHandlerEvents::UpgradedFilter(
                        UpgradedFilter { implementation: new_implementation },
                    ),
                )
            },
    {
        if !(ctx.caller == self.owner) {
            return Err(UnclaimsError::Unauthorized);
        }
        if new_implementation.is_zero() {
            return Err(UnclaimsError::ZeroAddress);
        }
        self.implementation = new_implementation;
        self.log.push(
            UnclaimsHandlerEvents::UpgradedFilter(
                UpgradedFilter { implementation: new_implementation },
            ),
        );
        Ok(())
    }

    /// Points the registry at a new implementation as `upgrade_to` does, and
    /// hands back `data`: the call to make on the new implementation.
    pub fn upgrade_to_and_call(
        &mut self,
        ctx: &CallContext,
        new_implementation: Address,
        data: Vec<u8>,
    ) -> (r: Result<Vec<u8>, UnclaimsError>)
        ensures
            ctx.caller@ != old(self)@.owner@ ==> r == Err::<Vec<u8>, UnclaimsError>(
                UnclaimsError::Unauthorized,
            ),
            ctx.caller@ == old(self)@.owner@ && all_zero(new_implementation@) ==> r == Err::<
                Vec<u8>,
                UnclaimsError,
            >(UnclaimsError::ZeroAddress),
            ctx.caller@ == old(self)@.owner@ && !all_zero(new_implementation@) ==> r is Ok,
            r is Err ==> final(self)@ == old(self)@ && final(self).event_log() == old(
                self,
            ).event_log(),
            r is Ok ==> {
                &&& r == Ok::<Vec<u8>, UnclaimsError>(data)
                &&& ctx.caller@ == old(self)@.owner@ && !all_zero(new_implementation@)
                &&& final(self)@ == (HandlerState {
                    implementation: new_implementation,
                    ..old(self)@
                })
                &&& final(self).event_log() == old(self).event_log().push(
                    UnclaimsHandlerEvents::UpgradedFilter(
                        UpgradedFilter { implementation: new_implementation },
                    ),
                )
            },
    {
        match self.upgrade_to(ctx, new_implementation) {
            Ok(()) => Ok(data),
            Err(e) => Err(e),
        }
    }

    /// The proxy admin changes logged so far, oldest first.
    pub fn admin_changed_filter(&self) -> (r: Vec<&AdminChangedFilter>)
        ensures
            r@.map_values(|e: &AdminChangedFilter| *e) == admin_changes_in(self.event_log()),
    {
        let mut r: Vec<&AdminChangedFilter> = Vec::new();
        let mut i: usize = 0;
        while i < self.log.len()
            invariant
                i <= self.log@.len(),
                r@.map_values(|e: &AdminChangedFilter| *e) == admin_changes_in(self.log@.subrange(0, i as int)),
            decreases self.log@.len() - i,
        {
            proof {
                assert(self.log@.subrange(0, i + 1).drop_last() =~= self.log@.subrange(0, i as int));
            }
            match &self.log[i] {
                UnclaimsHandlerEvents::AdminChangedFilter(e) => {
                    r.push(e);
                }
                _ => {}
            }
            proof {
                assert(r@.map_values(|e: &AdminChangedFilter| *e) =~= admin_changes_in(self.log@.subrange(0, i + 1)));
            }
            i = i + 1;
        }
        proof {
            assert(self.log@.subrange(0, self.log@.len() as int) =~= self.log@);
        }
        r
    }

    /// The beacon upgrades logged so far, oldest first.
    pub fn beacon_upgraded_filter(&self) -> (r: Vec<&BeaconUpgradedFilter>)
        ensures
            r@.map_values(|e: &BeaconUpgradedFilter| *e) == beacon_upgrades_in(self.event_log()),
    {
        let mut r: Vec<&BeaconUpgradedFilter> = Vec::new();
        let mut i: usize = 0;
        while i < self.log.len()
            invariant
                i <= self.log@.len(),
                r@.map_values(|e: &BeaconUpgradedFilter| *e) == beacon_upgrades_in(self.log@.subrange(0, i as int)),
            decreases self.log@.len() - i,
        {
            proof {
                assert(self.log@.subrange(0, i + 1).drop_last() =~= self.log@.subrange(0, i as int));
            }
            match &self.log[i] {
                UnclaimsHandlerEvents::BeaconUpgradedFilter(e) => {
                    r.push(e);
                }
                _ => {}
            }
            proof {
                assert(r@.map_values(|e: &BeaconUpgradedFilter| *e) =~= beacon_upgrades_in(self.log@.subrange(0, i + 1)));
            }
            i = i + 1;
        }
        proof {
            assert(self.log@.subrange(0, self.log@.len() as int) =~= self.log@);
        }
        r
    }

    /// The initializations logged so far, oldest first.
    pub fn initialized_filter(&self) -> (r: Vec<&InitializedFilter>)
        ensures
            r@.map_values(|e: &InitializedFilter| *e) == initializations_in(self.event_log()),
    {
        let mut r: Vec<&InitializedFilter> = Vec::new();
        let mut i: usize = 0;
        while i < self.log.len()
            invariant
                i <= self.log@.len(),
                r@.map_values(|e: &InitializedFilter| *e) == initializations_in(self.log@.subrange(0, i as int)),
            decreases self.log@.len() - i,
        {
            proof {
                assert(self.log@.subrange(0, i + 1).drop_last() =~= self.log@.subrange(0, i as int));
            }
            match &self.log[i] {
                UnclaimsHandlerEvents::InitializedFilter(e) => {
                    r.push(e);
                }
                _ => {}
            }
            proof {
                assert(r@.map_values(|e: &InitializedFilter| *e) =~= initializations_in(self.log@.subrange(0, i + 1)));
            }
            i = i + 1;
        }
        proof {
            assert(self.log@.subrange(0, self.log@.len() as int) =~= self.log@);
        }
        r
    }

    /// The ownership transfers logged so far, oldest first.
    pub fn ownership_transferred_filter(&self) -> (r: Vec<&OwnershipTransferredFilter>)
        ensures
            r@.map_values(|e: &OwnershipTransferredFilter| *e) == ownership_transfers_in(self.event_log()),
    {
        let mut r: Vec<&OwnershipTransferredFilter> = Vec::new();
        let mut i: usize = 0;
        while i < self.log.len()
            invariant
                i <= self.log@.len(),
                r@.map_values(|e: &OwnershipTransferredFilter| *e) == ownership_transfers_in(self.log@.subrange(0, i as int)),
            decreases self.log@.len() - i,
        {
            proof {
                assert(self.log@.subrange(0, i + 1).drop_last() =~= self.log@.subrange(0, i as int));
            }
            match &self.log[i] {
                UnclaimsHandlerEvents::OwnershipTransferredFilter(e) => {
                    r.push(e);
                }
                _ => {}
            }
            proof {
                assert(r@.map_values(|e: &OwnershipTransferredFilter| *e) =~= ownership_transfers_in(self.log@.subrange(0, i + 1)));
            }
            i = i + 1;
        }
        proof {
            assert(self.log@.subrange(0, self.log@.len() as int) =~= self.log@);
        }
        r
    }

    /// The fund claims logged so far, oldest first.
    pub fn unclaimed_fund_claimed_filter(&self) -> (r: Vec<&UnclaimedFundClaimedFilter>)
        ensures
            r@.map_values(|e: &UnclaimedFundClaimedFilter| *e) == fund_claims_in(self.event_log()),
    {
        let mut r: Vec<&UnclaimedFundClaimedFilter> = Vec::new();
        let mut i: usize = 0;
        while i < self.log.len()
            invariant
                i <= self.log@.len(),
                r@.map_values(|e: &UnclaimedFundClaimedFilter| *e) == fund_claims_in(self.log@.subrange(0, i as int)),
            decreases self.log@.len() - i,
        {
            proof {
                assert(self.log@.subrange(0, i + 1).drop_last() =~= self.log@.subrange(0, i as int));
            }
            match &self.log[i] {
                UnclaimsHandlerEvents::UnclaimedFundClaimedFilter(e) => {
                    r.push(e);
                }
                _ => {}
            }
            proof {
                assert(r@.map_values(|e: &UnclaimedFundClaimedFilter| *e) =~= fund_claims_in(self.log@.subrange(0, i + 1)));
            }
            i = i + 1;
        }
        proof {
            assert(self.log@.subrange(0, self.log@.len() as int) =~= self.log@);
        }
        r
    }

    /// The fund registrations logged so far, oldest first.
    pub fn unclaimed_fund_registered_filter(&self) -> (r: Vec<&UnclaimedFundRegisteredFilter>)
        ensures
            r@.map_values(|e: &UnclaimedFundRegisteredFilter| *e) == fund_registrations_in(self.event_log()),
    {
        let mut r: Vec<&UnclaimedFundRegisteredFilter> = Vec::new();
        let mut i: usize = 0;
        while i < self.log.len()
            invariant
                i <= self.log@.len(),
                r@.map_values(|e: &UnclaimedFundRegisteredFilter| *e) == fund_registrations_in(self.log@.subrange(0, i as int)),
            decreases self.log@.len() - i,
        {
            proof {
                assert(self.log@.subrange(0, i + 1).drop_last() =~= self.log@.subrange(0, i as int));
            }
            match &self.log[i] {
                UnclaimsHandlerEvents::UnclaimedFundRegisteredFilter(e) => {
                    r.push(e);
                }
                _ => {}
            }
            proof {
                assert(r@.map_values(|e: &UnclaimedFundRegisteredFilter| *e) =~= fund_registrations_in(self.log@.subrange(0, i + 1)));
            }
            i = i + 1;
        }
        proof {
            assert(self.log@.subrange(0, self.log@.len() as int) =~= self.log@);
        }
        r
    }

    /// The fund voids logged so far, oldest first.
    pub fn unclaimed_fund_voided_filter(&self) -> (r: Vec<&UnclaimedFundVoidedFilter>)
        ensures
            r@.map_values(|e: &UnclaimedFundVoidedFilter| *e) == fund_voids_in(self.event_log()),
    {
        let mut r: Vec<&UnclaimedFundVoidedFilter> = Vec::new();
        let mut i: usize = 0;
        while i < self.log.len()
            invariant
                i <= self.log@.len(),
                r@.map_values(|e: &UnclaimedFundVoidedFilter| *e) == fund_voids_in(self.log@.subrange(0, i as int)),
            decreases self.log@.len() - i,
        {
            proof {
                assert(self.log@.subrange(0, i + 1).drop_last() =~= self.log@.subrange(0, i as int));
            }
            match &self.log[i] {
                UnclaimsHandlerEvents::UnclaimedFundVoidedFilter(e) => {
                    r.push(e);
                }
                _ => {}
            }
            proof {
                assert(r@.map_values(|e: &UnclaimedFundVoidedFilter| *e) =~= fund_voids_in(self.log@.subrange(0, i + 1)));
            }
            i = i + 1;
        }
        proof {
            assert(self.log@.subrange(0, self.log@.len() as int) =~= self.log@);
        }
        r
    }

    /// The state claims logged so far, oldest first.
    pub fn unclaimed_state_claimed_filter(&self) -> (r: Vec<&UnclaimedStateClaimedFilter>)
        ensures
            r@.map_values(|e: &UnclaimedStateClaimedFilter| *e) == state_claims_in(self.event_log()),
    {
        let mut r: Vec<&UnclaimedStateClaimedFilter> = Vec::new();
        let mut i: usize = 0;
        while i < self.log.len()
            invariant
                i <= self.log@.len(),
                r@.map_values(|e: &UnclaimedStateClaimedFilter| *e) == state_claims_in(self.log@.subrange(0, i as int)),
            decreases self.log@.len() - i,
        {
            proof {
                assert(self.log@.subrange(0, i + 1).drop_last() =~= self.log@.subrange(0, i as int));
            }
            match &self.log[i] {
                UnclaimsHandlerEvents::UnclaimedStateClaimedFilter(e) => {
                    r.push(e);
                }
                _ => {}
            }
            proof {
                assert(r@.map_values(|e: &UnclaimedStateClaimedFilter| *e) =~= state_claims_in(self.log@.subrange(0, i + 1)));
            }
            i = i + 1;
        }
        proof {
            assert(self.log@.subrange(0, self.log@.len() as int) =~= self.log@);
        }
        r
    }

    /// The state registrations logged so far, oldest first.
    pub fn unclaimed_state_registered_filter(&self) -> (r: Vec<&UnclaimedStateRegisteredFilter>)
        ensures
            r@.map_values(|e: &UnclaimedStateRegisteredFilter| *e) == state_registrations_in(self.event_log()),
    {
        let mut r: Vec<&UnclaimedStateRegisteredFilter> = Vec::new();
        let mut i: usize = 0;
        while i < self.log.len()
            invariant
                i <= self.log@.len(),
                r@.map_values(|e: &UnclaimedStateRegisteredFilter| *e) == state_registrations_in(self.log@.subrange(0, i as int)),
            decreases self.log@.len() - i,
        {
            proof {
                assert(self.log@.subrange(0, i + 1).drop_last() =~= self.log@.subrange(0, i as int));
            }
            match &self.log[i] {
                UnclaimsHandlerEvents::UnclaimedStateRegisteredFilter(e) => {
                    r.push(e);
                }
                _ => {}
            }
            proof {
                assert(r@.map_values(|e: &UnclaimedStateRegisteredFilter| *e) =~= state_registrations_in(self.log@.subrange(0, i + 1)));
            }
            i = i + 1;
        }
        proof {
            assert(self.log@.subrange(0, self.log@.len() as int) =~= self.log@);
        }
        r
    }

    /// The state voids logged so far, oldest first.
    pub fn unclaimed_state_voided_filter(&self) -> (r: Vec<&UnclaimedStateVoidedFilter>)
        ensures
            r@.map_values(|e: &UnclaimedStateVoidedFilter| *e) == state_voids_in(self.event_log()),
    {
        let mut r: Vec<&UnclaimedStateVoidedFilter> = Vec::new();
        let mut i: usize = 0;
        while i < self.log.len()
            invariant
                i <= self.log@.len(),
                r@.map_values(|e: &UnclaimedStateVoidedFilter| *e) == state_voids_in(self.log@.subrange(0, i as int)),
            decreases self.log@.len() - i,
        {
            proof {
                assert(self.log@.subrange(0, i + 1).drop_last() =~= self.log@.subrange(0, i as int));
            }
            match &self.log[i] {
                UnclaimsHandlerEvents::UnclaimedStateVoidedFilter(e) => {
                    r.push(e);
                }
                _ => {}
            }
            proof {
                assert(r@.map_values(|e: &UnclaimedStateVoidedFilter| *e) =~= state_voids_in(self.log@.subrange(0, i + 1)));
            }
            i = i + 1;
        }
        proof {
            assert(self.log@.subrange(0, self.log@.len() as int) =~= self.log@);
        }
        r
    }

    /// The implementation upgrades logged so far, oldest first.
    pub fn upgraded_filter(&self) -> (r: Vec<&UpgradedFilter>)
        ensures
            r@.map_values(|e: &UpgradedFilter| *e) == upgrades_in(self.event_log()),
    {
        let mut r: Vec<&UpgradedFilter> = Vec::new();
        let mut i: usize = 0;
        while i < self.log.len()
            invariant
                i <= self.log@.len(),
                r@.map_values(|e: &UpgradedFilter| *e) == upgrades_in(self.log@.subrange(0, i as int)),
            decreases self.log@.len() - i,
        {
            proof {
                assert(self.log@.subrange(0, i + 1).drop_last() =~= self.log@.subrange(0, i as int));
            }
            match &self.log[i] {
                UnclaimsHandlerEvents::UpgradedFilter(e) => {
                    r.push(e);
                }
                _ => {}
            }
            proof {
                assert(r@.map_values(|e: &UpgradedFilter| *e) =~= upgrades_in(self.log@.subrange(0, i + 1)));
            }
            i = i + 1;
        }
        proof {
            assert(self.log@.subrange(0, self.log@.len() as int) =~= self.log@);
        }
        r
    }

    /// Every event logged so far, oldest first.
    pub fn events(&self) -> (r: &Vec<UnclaimsHandlerEvents>)
        ensures
            r@ == self.event_log(),
    {
        &self.log
    }

    /// The fund slot of `id` as stored: the live fund, or all zero where there is none.
    pub fn unclaimed_fund_of_id(&self, id: u128) -> (r: UnclaimedFundOfIdReturn)
        ensures
            fund_at(self@, id) matches Some(f) ==> {
                &&& r.id == f.id
                &&& r.email_addr_commit == f.email_addr_commit
                &&& r.sender == f.sender
                &&& r.token_addr == f.token_addr
                &&& r.amount == f.amount
                &&& r.expiry_time == f.expiry_time
            },
            fund_at(self@, id) is None ==> {
                &&& r.id == 0
                &&& all_zero(r.email_addr_commit@)
                &&& all_zero(r.sender@)
                &&& all_zero(r.token_addr@)
                &&& r.amount == 0
                &&& r.expiry_time == 0
            },
    {
        match self.get_unclaimed_fund(id) {
            Some(f) => UnclaimedFundOfIdReturn {
                id: f.id,
                email_addr_commit: f.email_addr_commit,
                sender: f.sender,
                token_addr: f.token_addr,
                amount: f.amount,
                expiry_time: f.expiry_time,
            },
            None => UnclaimedFundOfIdReturn {
                id: 0,
                email_addr_commit: [0u8; 32],
                sender: Address::zero(),
                token_addr: Address::zero(),
                amount: 0,
                expiry_time: 0,
            },
        }
    }

    /// The state slot of `id` as stored: the live state, or all zero and empty
    /// where there is none.
    pub fn unclaimed_state_of_id(&self, id: u128) -> (r: UnclaimedStateOfIdReturn)
        ensures
            state_at(self@, id) matches Some(s) ==> {
                &&& r.id == s.id
                &&& r.email_addr_commit == s.email_addr_commit
                &&& r.extension_addr == s.extension_addr
                &&& r.sender == s.sender
                &&& r.state@ == s.state
                &&& r.expiry_time == s.expiry_time
            },
            state_at(self@, id) is None ==> {
                &&& r.id == 0
                &&& all_zero(r.email_addr_commit@)
                &&& all_zero(r.extension_addr@)
                &&& all_zero(r.sender@)
                &&& r.state@.len() == 0
                &&& r.expiry_time == 0
            },
    {
        match self.get_unclaimed_state(id) {
            Some(s) => UnclaimedStateOfIdReturn {
                id: s.id,
                email_addr_commit: s.email_addr_commit,
                extension_addr: s.extension_addr,
                sender: s.sender,
                state: s.state,
                expiry_time: s.expiry_time,
            },
            None => UnclaimedStateOfIdReturn {
                id: 0,
                email_addr_commit: [0u8; 32],
                extension_addr: Address::zero(),
                sender: Address::zero(),
                state: Vec::new(),
                expiry_time: 0,
            },
        }
    }

    /// The owner.
    pub fn owner(&self) -> (r: Address)
        ensures
            r == self@.owner,
    {
        self.owner
    }

    /// The relayer registry consulted to authorize relayers.
    pub fn relayer_handler(&self) -> (r: Address)
        ensures
            r == self@.config.relayer_handler,
    {
        self.config.relayer_handler
    }

    /// The account handler that resolves recipients' salts.
    pub fn account_handler(&self) -> (r: Address)
        ensures
            r == self@.config.account_handler,
    {
        self.config.account_handler
    }

    /// The proof verifier.
    pub fn verifier_address(&self) -> (r: Address)
        ensures
            r == self@.config.verifier,
    {
        self.config.verifier
    }

    /// The gas a fund claim's callback is granted and a fund registration pays for.
    pub fn unclaimed_fund_claim_gas(&self) -> (r: u128)
        ensures
            r == self@.config.unclaimed_fund_claim_gas,
    {
        self.config.unclaimed_fund_claim_gas
    }

    /// The gas a state claim's callback is granted and a state registration pays for.
    pub fn unclaimed_state_claim_gas(&self) -> (r: u128)
        ensures
            r == self@.config.unclaimed_state_claim_gas,
    {
        self.config.unclaimed_state_claim_gas
    }

    /// The default time from registration to expiry.
    pub fn unclaims_expiry_duration(&self) -> (r: u128)
        ensures
            r == self@.config.unclaims_expiry_duration,
    {
        self.config.unclaims_expiry_duration
    }

    /// The fee per gas registrations pay at; zero means the basis fee.
    pub fn max_fee_per_gas(&self) -> (r: u128)
        ensures
            r == self@.config.max_fee_per_gas,
    {
        self.config.max_fee_per_gas
    }

    /// The storage slot of the implementation address behind an upgradeable
    /// proxy: the Keccak-256 hash of `eip1967.proxy.implementation`, minus one.
    pub fn proxiable_uuid(&self) -> (r: [u8; 32])
        ensures
            r@ == implementation_slot(),
    {
        let r: [u8; 32] = [
            0x36, 0x08, 0x94, 0xa1, 0x3b, 0xa1, 0xa3, 0x21, 0x06, 0x67, 0xc8, 0x28, 0x49, 0x2d,
            0xb9, 0x8d, 0xca, 0x3e, 0x20, 0x76, 0xcc, 0x37, 0x35, 0xa9, 0x20, 0xa3, 0xca, 0x50,
            0x5d, 0x38, 0x2b, 0xbc,
        ];
        proof {
            assert(r@ =~= implementation_slot());
        }
        r
    }
}

/// The bytes of the implementation slot of an upgradeable proxy.
pub open spec fn implementation_slot() -> Seq<u8> {
    seq![
        0x36u8, 0x08, 0x94, 0xa1, 0x3b, 0xa1, 0xa3, 0x21, 0x06, 0x67, 0xc8, 0x28, 0x49, 0x2d,
        0xb9, 0x8d, 0xca, 0x3e, 0x20, 0x76, 0xcc, 0x37, 0x35, 0xa9, 0x20, 0xa3, 0xca, 0x50,
        0x5d, 0x38, 0x2b, 0xbc,
    ]
}

} // verus!
