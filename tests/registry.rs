use unclaims::policy::{WIND_DOWN_GAS, WIND_DOWN_MULTIPLE};
use unclaims::types::{CallContext, InitializeCall, Outcomes, UnclaimsHandlerEvents};
use unclaims::{Address, UnclaimsError, UnclaimsHandler};

const FUND_GAS: u128 = 100_000;
const STATE_GAS: u128 = 200_000;
const DURATION: u128 = 86_400;
const FEE_PER_GAS: u128 = 3;
const NOW: u128 = 1_000_000;

fn addr(b: u8) -> Address {
    Address([b; 20])
}

fn word(b: u8) -> [u8; 32] {
    [b; 32]
}

fn owner() -> Address {
    addr(0x0a)
}

fn depositor() -> Address {
    addr(0xd0)
}

fn relayer() -> Address {
    addr(0x7e)
}

fn recipient() -> Address {
    addr(0x5c)
}

fn ctx(caller: Address, now: u128, value: u128) -> CallContext {
    CallContext { caller, now, value, base_fee_per_gas: 7 }
}

fn fund_fee() -> u128 {
    FUND_GAS * FEE_PER_GAS
}

fn state_fee() -> u128 {
    STATE_GAS * FEE_PER_GAS
}

fn handler() -> UnclaimsHandler {
    UnclaimsHandler::deploy(
        addr(0xaa),
        &ctx(owner(), 0, 0),
        InitializeCall {
            relayer_handler: addr(1),
            account_handler: addr(2),
            verifier: addr(3),
            unclaimed_fund_claim_gas: FUND_GAS,
            unclaimed_state_claim_gas: STATE_GAS,
            unclaims_expiry_duration: DURATION,
            max_fee_per_gas: FEE_PER_GAS,
        },
    )
}

fn ok_env() -> Outcomes {
    Outcomes {
        caller_is_relayer: true,
        proof_valid: true,
        recipient: recipient(),
        gas_left: 1_000_000,
        transfer_ok: true,
        callback_success: true,
        callback_return_data: vec![0xbe, 0xef],
    }
}

fn register_fund(h: &mut UnclaimsHandler, amount: u128, expiry: u128) -> Result<u128, UnclaimsError> {
    h.register_unclaimed_fund(
        &ctx(depositor(), NOW, fund_fee()),
        word(0x11),
        addr(0x70),
        amount,
        expiry,
        42,
        "alice@example.com".to_string(),
    )
}

fn register_state(h: &mut UnclaimsHandler, state: Vec<u8>, expiry: u128) -> Result<u128, UnclaimsError> {
    h.register_unclaimed_state(
        &ctx(depositor(), NOW, state_fee()),
        word(0x22),
        addr(0xe0),
        state,
        expiry,
        43,
        "bob@example.com".to_string(),
    )
}

#[test]
fn fund_register_claim_scenario() {
    let mut h = handler();
    let id = register_fund(&mut h, 100, NOW + 3600).unwrap();
    assert_eq!(id, 0);
    assert_eq!(h.num_unclaimed_funds(), 1);
    let relayer_ctx = ctx(relayer(), NOW + 10, 0);
    assert_eq!(h.claim_unclaimed_fund(&relayer_ctx, 0, ok_env()), Ok(()));
    assert_eq!(h.get_unclaimed_fund(0), None);
    let claims = h.unclaimed_fund_claimed_filter();
    assert_eq!(claims.len(), 1);
    assert_eq!(claims[0].id, 0);
    assert_eq!(claims[0].amount, 100);
    assert_eq!(claims[0].recipient, recipient());
    assert_eq!(claims[0].token_addr, addr(0x70));
    assert_eq!(claims[0].email_addr_commit, word(0x11));
}

#[test]
fn state_expire_then_void_scenario() {
    let mut h = handler();
    let id = register_state(&mut h, b"payload".to_vec(), NOW + 10).unwrap();
    assert_eq!(id, 0);
    let later = NOW + 11;
    assert_eq!(
        h.claim_unclaimed_state(&ctx(relayer(), later, 0), 0, ok_env()),
        Err(UnclaimsError::AlreadyExpired)
    );
    let r = h.void_unclaimed_state(&ctx(depositor(), later, 0), 0, ok_env()).unwrap();
    assert!(r.success);
    assert_eq!(r.return_data, vec![0xbe, 0xef]);
    let voids = h.unclaimed_state_voided_filter();
    assert_eq!(voids.len(), 1);
    assert_eq!(voids[0].id, 0);
    assert_eq!(voids[0].sender, depositor());
    assert!(h.get_unclaimed_state(0).is_none());
}

#[test]
fn registration_stores_exact_fund() {
    let mut h = handler();
    assert_eq!(register_fund(&mut h, 5, NOW + 1), Ok(0));
    assert_eq!(register_fund(&mut h, 6, 0), Ok(1));
    assert_eq!(h.num_unclaimed_funds(), 2);
    let f = h.get_unclaimed_fund(1).unwrap();
    assert_eq!(f.id, 1);
    assert_eq!(f.amount, 6);
    assert_eq!(f.sender, depositor());
    assert_eq!(f.token_addr, addr(0x70));
    assert_eq!(f.email_addr_commit, word(0x11));
    assert_eq!(f.expiry_time, NOW + DURATION);
    assert_eq!(h.get_unclaimed_fund(0).unwrap().expiry_time, NOW + 1);
    let regs = h.unclaimed_fund_registered_filter();
    assert_eq!(regs.len(), 2);
    assert_eq!(regs[0].email_addr, "alice@example.com");
    assert_eq!(regs[0].commitment_randomness, 42);
}

#[test]
fn registration_stores_exact_state() {
    let mut h = handler();
    assert_eq!(register_state(&mut h, vec![1, 2, 3], NOW + 5), Ok(0));
    assert_eq!(h.num_unclaimed_states(), 1);
    assert_eq!(h.num_unclaimed_funds(), 0);
    let s = h.get_unclaimed_state(0).unwrap();
    assert_eq!(s.state, vec![1, 2, 3]);
    assert_eq!(s.extension_addr, addr(0xe0));
    assert_eq!(s.sender, depositor());
    assert_eq!(s.expiry_time, NOW + 5);
    let regs = h.unclaimed_state_registered_filter();
    assert_eq!(regs.len(), 1);
    assert_eq!(regs[0].state, vec![1, 2, 3]);
    assert_eq!(regs[0].email_addr, "bob@example.com");
}

#[test]
fn empty_payload_consumes_no_id() {
    let mut h = handler();
    assert_eq!(register_fund(&mut h, 0, NOW + 1), Err(UnclaimsError::EmptyPayload));
    assert_eq!(register_state(&mut h, vec![], NOW + 1), Err(UnclaimsError::EmptyPayload));
    assert_eq!(h.num_unclaimed_funds(), 0);
    assert_eq!(h.num_unclaimed_states(), 0);
    assert_eq!(h.events().len(), 2);
}

#[test]
fn past_expiry_is_rejected() {
    let mut h = handler();
    assert_eq!(register_fund(&mut h, 1, NOW), Err(UnclaimsError::InvalidExpiry));
    assert_eq!(register_fund(&mut h, 1, NOW - 1), Err(UnclaimsError::InvalidExpiry));
    assert_eq!(register_state(&mut h, vec![1], NOW), Err(UnclaimsError::InvalidExpiry));
    assert_eq!(h.num_unclaimed_funds(), 0);
}

#[test]
fn fee_must_match_exactly() {
    let mut h = handler();
    for value in [fund_fee() - 1, fund_fee() + 1, 0] {
        let r = h.register_unclaimed_fund(
            &ctx(depositor(), NOW, value),
            word(1),
            addr(0x70),
            1,
            NOW + 1,
            0,
            String::new(),
        );
        assert_eq!(r, Err(UnclaimsError::InvalidFee));
    }
    let r = h.register_unclaimed_state(
        &ctx(depositor(), NOW, fund_fee()),
        word(1),
        addr(0xe0),
        vec![1],
        NOW + 1,
        0,
        String::new(),
    );
    assert_eq!(r, Err(UnclaimsError::InvalidFee));
    assert_eq!(h.num_unclaimed_funds(), 0);
}

#[test]
fn zero_fee_per_gas_uses_base_fee() {
    let mut h = UnclaimsHandler::deploy(
        addr(0xaa),
        &ctx(owner(), 0, 0),
        InitializeCall {
            relayer_handler: addr(1),
            account_handler: addr(2),
            verifier: addr(3),
            unclaimed_fund_claim_gas: 10,
            unclaimed_state_claim_gas: 20,
            unclaims_expiry_duration: DURATION,
            max_fee_per_gas: 0,
        },
    );
    let r = h.register_unclaimed_fund(&ctx(depositor(), NOW, 70), word(1), addr(0x70), 1, 0, 0, String::new());
    assert_eq!(r, Ok(0));
}

#[test]
fn zero_commitment_and_extension_are_rejected() {
    let mut h = handler();
    let r = h.register_unclaimed_fund(&ctx(depositor(), NOW, fund_fee()), word(0), addr(0x70), 1, 0, 0, String::new());
    assert_eq!(r, Err(UnclaimsError::InvalidCommitment));
    let r = h.register_unclaimed_state(&ctx(depositor(), NOW, state_fee()), word(1), addr(0), vec![1], 0, 0, String::new());
    assert_eq!(r, Err(UnclaimsError::ZeroAddress));
}

#[test]
fn claimed_fund_stays_cleared() {
    let mut h = handler();
    register_fund(&mut h, 100, NOW + 100).unwrap();
    h.claim_unclaimed_fund(&ctx(relayer(), NOW, 0), 0, ok_env()).unwrap();
    assert_eq!(
        h.claim_unclaimed_fund(&ctx(relayer(), NOW, 0), 0, ok_env()),
        Err(UnclaimsError::NotRegistered)
    );
    assert_eq!(
        h.void_unclaimed_fund(&ctx(depositor(), NOW + 200, 0), 0, ok_env()),
        Err(UnclaimsError::NotRegistered)
    );
    assert_eq!(register_fund(&mut h, 100, NOW + 100), Ok(1));
    assert_eq!(h.get_unclaimed_fund(0), None);
    assert_eq!(h.unclaimed_fund_of_id(0).amount, 0);
}

#[test]
fn claimed_state_stays_cleared() {
    let mut h = handler();
    register_state(&mut h, vec![9], NOW + 100).unwrap();
    let r = h.claim_unclaimed_state(&ctx(relayer(), NOW, 0), 0, ok_env()).unwrap();
    assert!(r.success);
    assert_eq!(
        h.claim_unclaimed_state(&ctx(relayer(), NOW, 0), 0, ok_env()),
        Err(UnclaimsError::NotRegistered)
    );
    assert_eq!(
        h.void_unclaimed_state(&ctx(depositor(), NOW + 200, 0), 0, ok_env()),
        Err(UnclaimsError::NotRegistered)
    );
    assert_eq!(h.unclaimed_state_claimed_filter()[0].recipient, recipient());
}

#[test]
fn failed_state_callback_still_claims() {
    let mut h = handler();
    register_state(&mut h, vec![9], NOW + 100).unwrap();
    let mut env = ok_env();
    env.callback_success = false;
    env.callback_return_data = vec![1];
    let r = h.claim_unclaimed_state(&ctx(relayer(), NOW, 0), 0, env).unwrap();
    assert!(!r.success);
    assert_eq!(r.return_data, vec![1]);
    assert!(h.get_unclaimed_state(0).is_none());
}

#[test]
fn claim_at_expiry_fails_whatever_the_proof() {
    let mut h = handler();
    register_fund(&mut h, 100, NOW + 100).unwrap();
    for proof_valid in [true, false] {
        let mut env = ok_env();
        env.proof_valid = proof_valid;
        assert_eq!(
            h.claim_unclaimed_fund(&ctx(relayer(), NOW + 100, 0), 0, env),
            Err(UnclaimsError::AlreadyExpired)
        );
    }
    assert!(h.get_unclaimed_fund(0).is_some());
}

#[test]
fn void_waits_for_expiry() {
    let mut h = handler();
    register_fund(&mut h, 100, NOW + 100).unwrap();
    assert_eq!(
        h.void_unclaimed_fund(&ctx(depositor(), NOW + 99, 0), 0, ok_env()),
        Err(UnclaimsError::NotExpired)
    );
    assert_eq!(h.void_unclaimed_fund(&ctx(depositor(), NOW + 100, 0), 0, ok_env()), Ok(()));
    let voids = h.unclaimed_fund_voided_filter();
    assert_eq!(voids.len(), 1);
    assert_eq!(voids[0].sender, depositor());
    assert_eq!(voids[0].amount, 100);
}

#[test]
fn void_by_stranger_is_unauthorized() {
    let mut h = handler();
    register_fund(&mut h, 100, NOW + 100).unwrap();
    let mut env = ok_env();
    env.caller_is_relayer = false;
    assert_eq!(
        h.void_unclaimed_fund(&ctx(addr(0x99), NOW + 100, 0), 0, env.clone()),
        Err(UnclaimsError::Unauthorized)
    );
    assert_eq!(h.void_unclaimed_fund(&ctx(depositor(), NOW + 100, 0), 0, env), Ok(()));
}

#[test]
fn claim_by_non_relayer_is_unauthorized() {
    let mut h = handler();
    register_fund(&mut h, 100, NOW + 100).unwrap();
    register_state(&mut h, vec![1], NOW + 100).unwrap();
    let mut env = ok_env();
    env.caller_is_relayer = false;
    assert_eq!(
        h.claim_unclaimed_fund(&ctx(addr(0x99), NOW, 0), 0, env.clone()),
        Err(UnclaimsError::Unauthorized)
    );
    assert_eq!(
        h.claim_unclaimed_state(&ctx(addr(0x99), NOW, 0), 0, env),
        Err(UnclaimsError::Unauthorized)
    );
    assert!(h.get_unclaimed_fund(0).is_some());
}

#[test]
fn invalid_proof_changes_nothing() {
    let mut h = handler();
    register_fund(&mut h, 100, NOW + 100).unwrap();
    register_state(&mut h, vec![1, 2], NOW + 100).unwrap();
    let before_fund = h.get_unclaimed_fund(0);
    let before_state = h.get_unclaimed_state(0);
    let before_events = h.events().clone();
    let mut env = ok_env();
    env.proof_valid = false;
    assert_eq!(
        h.claim_unclaimed_fund(&ctx(relayer(), NOW, 0), 0, env.clone()),
        Err(UnclaimsError::InvalidProof)
    );
    assert_eq!(
        h.claim_unclaimed_state(&ctx(relayer(), NOW, 0), 0, env),
        Err(UnclaimsError::InvalidProof)
    );
    assert_eq!(h.get_unclaimed_fund(0), before_fund);
    assert_eq!(h.get_unclaimed_state(0), before_state);
    assert_eq!(h.events(), &before_events);
}

#[test]
fn unknown_id_is_not_found() {
    let mut h = handler();
    assert_eq!(h.claim_unclaimed_fund(&ctx(relayer(), NOW, 0), 3, ok_env()), Err(UnclaimsError::NotFound));
    assert_eq!(h.claim_unclaimed_state(&ctx(relayer(), NOW, 0), 0, ok_env()), Err(UnclaimsError::NotFound));
    assert_eq!(h.void_unclaimed_fund(&ctx(depositor(), NOW, 0), 0, ok_env()), Err(UnclaimsError::NotFound));
    assert_eq!(h.void_unclaimed_state(&ctx(depositor(), NOW, 0), 0, ok_env()), Err(UnclaimsError::NotFound));
}

#[test]
fn low_gas_is_insufficient() {
    let mut h = handler();
    register_state(&mut h, vec![1], NOW + 100).unwrap();
    let mut env = ok_env();
    env.gas_left = WIND_DOWN_MULTIPLE * WIND_DOWN_GAS - 1;
    assert_eq!(
        h.claim_unclaimed_state(&ctx(relayer(), NOW, 0), 0, env.clone()),
        Err(UnclaimsError::InsufficientGas)
    );
    assert_eq!(
        h.void_unclaimed_state(&ctx(depositor(), NOW + 100, 0), 0, env),
        Err(UnclaimsError::InsufficientGas)
    );
}

#[test]
fn failed_transfer_keeps_fund() {
    let mut h = handler();
    register_fund(&mut h, 100, NOW + 100).unwrap();
    let mut env = ok_env();
    env.transfer_ok = false;
    assert_eq!(
        h.claim_unclaimed_fund(&ctx(relayer(), NOW, 0), 0, env.clone()),
        Err(UnclaimsError::TransferFailed)
    );
    assert_eq!(
        h.void_unclaimed_fund(&ctx(depositor(), NOW + 100, 0), 0, env),
        Err(UnclaimsError::TransferFailed)
    );
    assert_eq!(h.get_unclaimed_fund(0).unwrap().amount, 100);
}

#[test]
fn internal_registration_is_owner_only() {
    let mut h = handler();
    let r = h.register_unclaimed_fund_internal(&ctx(depositor(), NOW, 0), depositor(), word(1), addr(0x70), 5);
    assert_eq!(r, Err(UnclaimsError::Unauthorized));
    let r = h.register_unclaimed_fund_internal(&ctx(owner(), NOW, 0), depositor(), word(1), addr(0x70), 5);
    assert_eq!(r, Ok(0));
    let f = h.get_unclaimed_fund(0).unwrap();
    assert_eq!(f.sender, depositor());
    assert_eq!(f.expiry_time, NOW + DURATION);
    let r = h.register_unclaimed_state_internal(&ctx(owner(), NOW, 0), addr(0xe0), depositor(), word(2), vec![4]);
    assert_eq!(r, Ok(0));
    let s = h.get_unclaimed_state(0).unwrap();
    assert_eq!(s.sender, depositor());
    assert_eq!(s.state, vec![4]);
    let r = h.register_unclaimed_state_internal(&ctx(relayer(), NOW, 0), addr(0xe0), depositor(), word(2), vec![4]);
    assert_eq!(r, Err(UnclaimsError::Unauthorized));
    assert_eq!(h.unclaimed_state_registered_filter()[0].email_addr, "");
}

#[test]
fn initialization_happens_once() {
    let mut h = UnclaimsHandler::new(addr(0xaa));
    assert_eq!(h.owner(), addr(0));
    let c = ctx(owner(), 0, 0);
    assert_eq!(h.initialize(&c, addr(1), addr(2), addr(3), 4, 5, 6, 7), Ok(()));
    assert_eq!(h.initialize(&c, addr(1), addr(2), addr(3), 4, 5, 6, 7), Err(UnclaimsError::AlreadyInitialized));
    assert_eq!(h.owner(), owner());
    assert_eq!(h.relayer_handler(), addr(1));
    assert_eq!(h.account_handler(), addr(2));
    assert_eq!(h.verifier_address(), addr(3));
    assert_eq!(h.unclaimed_fund_claim_gas(), 4);
    assert_eq!(h.unclaimed_state_claim_gas(), 5);
    assert_eq!(h.unclaims_expiry_duration(), 6);
    assert_eq!(h.max_fee_per_gas(), 7);
    assert_eq!(h.initialized_filter()[0].version, 1);
    assert_eq!(h.ownership_transferred_filter()[0].new_owner, owner());
}

#[test]
fn ownership_moves_only_by_owner() {
    let mut h = handler();
    assert_eq!(h.transfer_ownership(&ctx(relayer(), 0, 0), relayer()), Err(UnclaimsError::Unauthorized));
    assert_eq!(h.transfer_ownership(&ctx(owner(), 0, 0), addr(0)), Err(UnclaimsError::ZeroAddress));
    assert_eq!(h.transfer_ownership(&ctx(owner(), 0, 0), relayer()), Ok(()));
    assert_eq!(h.owner(), relayer());
    assert_eq!(h.renounce_ownership(&ctx(owner(), 0, 0)), Err(UnclaimsError::Unauthorized));
    assert_eq!(h.renounce_ownership(&ctx(relayer(), 0, 0)), Ok(()));
    assert_eq!(h.owner(), addr(0));
    assert_eq!(h.ownership_transferred_filter().len(), 3);
}

#[test]
fn upgrades_are_owner_only() {
    let mut h = handler();
    assert_eq!(h.upgrade_to(&ctx(relayer(), 0, 0), addr(0x33)), Err(UnclaimsError::Unauthorized));
    assert_eq!(h.upgrade_to(&ctx(owner(), 0, 0), addr(0)), Err(UnclaimsError::ZeroAddress));
    assert_eq!(h.upgrade_to(&ctx(owner(), 0, 0), addr(0x33)), Ok(()));
    assert_eq!(h.upgrade_to_and_call(&ctx(owner(), 0, 0), addr(0x34), vec![1, 2]), Ok(vec![1, 2]));
    let ups = h.upgraded_filter();
    assert_eq!(ups.len(), 2);
    assert_eq!(ups[1].implementation, addr(0x34));
    assert!(h.admin_changed_filter().is_empty());
    assert!(h.beacon_upgraded_filter().is_empty());
}

#[test]
fn proxiable_uuid_is_implementation_slot() {
    let h = handler();
    let slot = h.proxiable_uuid();
    assert_eq!(slot[0], 0x36);
    assert_eq!(slot[31], 0xbc);
}

#[test]
fn raw_slots_are_zero_when_empty() {
    let mut h = handler();
    register_state(&mut h, vec![5, 6], NOW + 100).unwrap();
    let s = h.unclaimed_state_of_id(0);
    assert_eq!(s.state, vec![5, 6]);
    assert_eq!(s.sender, depositor());
    let e = h.unclaimed_state_of_id(1);
    assert!(e.state.is_empty());
    assert_eq!(e.sender, addr(0));
    let f = h.unclaimed_fund_of_id(0);
    assert_eq!(f.amount, 0);
    assert_eq!(f.token_addr, addr(0));
}

#[test]
fn events_record_in_order() {
    let mut h = handler();
    register_fund(&mut h, 1, NOW + 1).unwrap();
    let ev = h.events();
    assert_eq!(ev.len(), 3);
    assert!(matches!(ev[0], UnclaimsHandlerEvents::OwnershipTransferredFilter(_)));
    assert!(matches!(ev[1], UnclaimsHandlerEvents::InitializedFilter(_)));
    assert!(matches!(ev[2], UnclaimsHandlerEvents::UnclaimedFundRegisteredFilter(_)));
}

#[test]
fn error_messages() {
    assert_eq!(UnclaimsError::NotFound.message(), "invalid id");
    assert_eq!(UnclaimsError::AlreadyExpired.message(), "already expired");
}

#[test]
fn proof_inputs_bind_entry_salt_and_relayer() {
    let mut h = handler();
    register_fund(&mut h, 100, NOW + 100).unwrap();
    register_state(&mut h, vec![1], NOW + 100).unwrap();
    let p = h.fund_claim_proof_inputs(0, word(0x5a), relayer()).unwrap();
    assert_eq!(p.id, 0);
    assert_eq!(p.email_addr_commit, word(0x11));
    assert_eq!(p.recipient_account_salt, word(0x5a));
    assert_eq!(p.relayer, relayer());
    let q = h.state_claim_proof_inputs(0, word(0x5b), relayer()).unwrap();
    assert_eq!(q.email_addr_commit, word(0x22));
    assert!(h.fund_claim_proof_inputs(1, word(0), relayer()).is_none());
    h.claim_unclaimed_state(&ctx(relayer(), NOW, 0), 0, ok_env()).unwrap();
    assert!(h.state_claim_proof_inputs(0, word(0x5b), relayer()).is_none());
}

#[test]
fn nothing_before_initialization() {
    let mut h = UnclaimsHandler::new(addr(0xaa));
    let c = ctx(depositor(), NOW, 0);
    let r = h.register_unclaimed_fund(&c, word(1), addr(0x70), 5, NOW + 10, 0, String::new());
    assert_eq!(r, Err(UnclaimsError::NotInitialized));
    let r = h.register_unclaimed_state(&c, word(1), addr(0xe0), vec![1], NOW + 10, 0, String::new());
    assert_eq!(r, Err(UnclaimsError::NotInitialized));
    let r = h.register_unclaimed_fund_internal(&ctx(addr(0), NOW, 0), depositor(), word(1), addr(0x70), 5);
    assert_eq!(r, Err(UnclaimsError::NotInitialized));
    let r = h.register_unclaimed_state_internal(&ctx(addr(0), NOW, 0), addr(0xe0), depositor(), word(1), vec![1]);
    assert_eq!(r, Err(UnclaimsError::NotInitialized));
    assert_eq!(h.claim_unclaimed_fund(&c, 0, ok_env()), Err(UnclaimsError::NotInitialized));
    assert_eq!(h.claim_unclaimed_state(&c, 0, ok_env()), Err(UnclaimsError::NotInitialized));
    assert_eq!(h.void_unclaimed_fund(&c, 0, ok_env()), Err(UnclaimsError::NotInitialized));
    assert_eq!(h.void_unclaimed_state(&c, 0, ok_env()), Err(UnclaimsError::NotInitialized));
    assert_eq!(h.initialize(&ctx(owner(), 0, 0), addr(1), addr(2), addr(3), 4, 5, 6, 7), Ok(()));
    assert_eq!(h.num_unclaimed_funds(), 0);
    assert_eq!(h.num_unclaimed_states(), 0);
    assert_eq!(UnclaimsError::NotInitialized.message(), "not initialized");
}
