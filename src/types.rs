//! Records held by the registry, the events it logs, and the values a call
//! receives from and hands back to its surroundings.

use vstd::prelude::*;

use crate::address::Address;

verus! {

/// Value escrowed for the holder of an email address.
#[derive(Clone, Copy, Debug, PartialEq, Eq, Hash)]
pub struct UnclaimedFund {
    pub id: u128,
    pub email_addr_commit: [u8; 32],
    pub sender: Address,
    pub token_addr: Address,
    pub amount: u128,
    pub expiry_time: u128,
}

/// Extension state escrowed for the holder of an email address.
#[derive(Clone, Debug, PartialEq, Eq, Hash)]
pub struct UnclaimedState {
    pub id: u128,
    pub email_addr_commit: [u8; 32],
    pub extension_addr: Address,
    pub sender: Address,
    pub state: Vec<u8>,
    pub expiry_time: u128,
}

/// An [`UnclaimedState`] with its payload seen as a sequence of bytes.
pub struct UnclaimedStateView {
    pub id: u128,
    pub email_addr_commit: [u8; 32],
    pub extension_addr: Address,
    pub sender: Address,
    pub state: Seq<u8>,
    pub expiry_time: u128,
}

impl View for UnclaimedState {
    type V = UnclaimedStateView;

    open spec fn view(&self) -> UnclaimedStateView {
        UnclaimedStateView {
            id: self.id,
            email_addr_commit: self.email_addr_commit,
            extension_addr: self.extension_addr,
            sender: self.sender,
            state: self.state@,
            expiry_time: self.expiry_time,
        }
    }
}

impl UnclaimedState {
    /// A copy of this entry, payload included.
    pub fn duplicate(&self) -> (r: UnclaimedState)
        ensures
            r@ == self@,
    {
        UnclaimedState {
            id: self.id,
            email_addr_commit: self.email_addr_commit,
            extension_addr: self.extension_addr,
            sender: self.sender,
            state: self.state.clone(),
            expiry_time: self.expiry_time,
        }
    }
}

/// The proxy's admin changed.
#[derive(Clone, Copy, Debug, PartialEq, Eq, Hash)]
pub struct AdminChangedFilter {
    pub previous_admin: Address,
    pub new_admin: Address,
}

/// The proxy's beacon changed.
#[derive(Clone, Copy, Debug, PartialEq, Eq, Hash)]
pub struct BeaconUpgradedFilter {
    pub beacon: Address,
}

/// The registry reached an initialization version.
#[derive(Clone, Copy, Debug, PartialEq, Eq, Hash)]
pub struct InitializedFilter {
    pub version: u8,
}

/// The owner changed.
#[derive(Clone, Copy, Debug, PartialEq, Eq, Hash)]
pub struct OwnershipTransferredFilter {
    pub previous_owner: Address,
    pub new_owner: Address,
}

/// An unclaimed fund was claimed and its value sent to `recipient`.
#[derive(Clone, Copy, Debug, PartialEq, Eq, Hash)]
pub struct UnclaimedFundClaimedFilter {
    pub id: u128,
    pub email_addr_commit: [u8; 32],
    pub token_addr: Address,
    pub amount: u128,
    pub recipient: Address,
}

/// An unclaimed fund was registered. The email address and the commitment
/// randomness are announced in clear for the recipient to be notified.
#[derive(Clone, Debug, PartialEq, Eq, Hash)]
pub struct UnclaimedFundRegisteredFilter {
    pub id: u128,
    pub email_addr_commit: [u8; 32],
    pub token_addr: Address,
    pub amount: u128,
    pub sender: Address,
    pub expiry_time: u128,
    pub commitment_randomness: u128,
    pub email_addr: String,
}

/// An unclaimed fund was voided and its value returned to `sender`.
#[derive(Clone, Copy, Debug, PartialEq, Eq, Hash)]
pub struct UnclaimedFundVoidedFilter {
    pub id: u128,
    pub email_addr_commit: [u8; 32],
    pub token_addr: Address,
    pub amount: u128,
    pub sender: Address,
}

/// An unclaimed state was claimed by `recipient`.
#[derive(Clone, Copy, Debug, PartialEq, Eq, Hash)]
pub struct UnclaimedStateClaimedFilter {
    pub id: u128,
    pub email_addr_commit: [u8; 32],
    pub recipient: Address,
}

/// An unclaimed state was registered. The email address and the commitment
/// randomness are announced in clear for the recipient to be notified.
#[derive(Clone, Debug, PartialEq, Eq, Hash)]
pub struct UnclaimedStateRegisteredFilter {
    pub id: u128,
    pub email_addr_commit: [u8; 32],
    pub extension_addr: Address,
    pub sender: Address,
    pub expiry_time: u128,
    pub state: Vec<u8>,
    pub commitment_randomness: u128,
    pub email_addr: String,
}

/// An unclaimed state was voided on behalf of `sender`.
#[derive(Clone, Copy, Debug, PartialEq, Eq, Hash)]
pub struct UnclaimedStateVoidedFilter {
    pub id: u128,
    pub email_addr_commit: [u8; 32],
    pub sender: Address,
}

/// The implementation behind the proxy changed.
#[derive(Clone, Copy, Debug, PartialEq, Eq, Hash)]
pub struct UpgradedFilter {
    pub implementation: Address,
}

/// Every event the registry logs.
#[derive(Clone, Debug, PartialEq, Eq, Hash)]
pub enum UnclaimsHandlerEvents {
    AdminChangedFilter(AdminChangedFilter),
    BeaconUpgradedFilter(BeaconUpgradedFilter),
    InitializedFilter(InitializedFilter),
    OwnershipTransferredFilter(OwnershipTransferredFilter),
    UnclaimedFundClaimedFilter(UnclaimedFundClaimedFilter),
    UnclaimedFundRegisteredFilter(UnclaimedFundRegisteredFilter),
    UnclaimedFundVoidedFilter(UnclaimedFundVoidedFilter),
    UnclaimedStateClaimedFilter(UnclaimedStateClaimedFilter),
    UnclaimedStateRegisteredFilter(UnclaimedStateRegisteredFilter),
    UnclaimedStateVoidedFilter(UnclaimedStateVoidedFilter),
    UpgradedFilter(UpgradedFilter),
}

/// The collaborators and policy parameters the registry is initialized with.
#[derive(Clone, Copy, Debug, PartialEq, Eq, Hash)]
pub struct InitializeCall {
    pub relayer_handler: Address,
    pub account_handler: Address,
    pub verifier: Address,
    pub unclaimed_fund_claim_gas: u128,
    pub unclaimed_state_claim_gas: u128,
    pub unclaims_expiry_duration: u128,
    pub max_fee_per_gas: u128,
}

/// What the extension's callback answered to a state claim.
#[derive(Clone, Debug, PartialEq, Eq, Hash)]
pub struct ClaimUnclaimedStateReturn {
    pub success: bool,
    pub return_data: Vec<u8>,
}

/// What the extension's callback answered to a state void.
#[derive(Clone, Debug, PartialEq, Eq, Hash)]
pub struct VoidUnclaimedStateReturn {
    pub success: bool,
    pub return_data: Vec<u8>,
}

/// The raw fund slot of an id: all zero where no fund is live.
#[derive(Clone, Copy, Debug, PartialEq, Eq, Hash)]
pub struct UnclaimedFundOfIdReturn {
    pub id: u128,
    pub email_addr_commit: [u8; 32],
    pub sender: Address,
    pub token_addr: Address,
    pub amount: u128,
    pub expiry_time: u128,
}

/// The raw state slot of an id: all zero and empty where no state is live.
#[derive(Clone, Debug, PartialEq, Eq, Hash)]
pub struct UnclaimedStateOfIdReturn {
    pub id: u128,
    pub email_addr_commit: [u8; 32],
    pub extension_addr: Address,
    pub sender: Address,
    pub state: Vec<u8>,
    pub expiry_time: u128,
}

/// The public inputs a claim's proof is verified against: the entry claimed,
/// its email address commitment, the recipient's account salt, and the
/// relayer submitting the claim.
#[derive(Clone, Copy, Debug, PartialEq, Eq, Hash)]
pub struct ClaimProofInputs {
    pub id: u128,
    pub email_addr_commit: [u8; 32],
    pub recipient_account_salt: [u8; 32],
    pub relayer: Address,
}

/// Who makes a call, when, and what it pays.
#[derive(Clone, Copy, Debug, PartialEq, Eq, Hash)]
pub struct CallContext {
    /// The calling account.
    pub caller: Address,
    /// The current time.
    pub now: u128,
    /// The payment attached to the call.
    pub value: u128,
    /// The current basis fee per unit of gas.
    pub base_fee_per_gas: u128,
}

/// What the registry's collaborators answered for a claim or a void.
///
/// The caller of the registry asks them before the call: the relayer registry
/// about the caller, the proof verifier about the claim's public inputs, the
/// account handler about the recipient, and it forwards the callback within
/// the gas budget that `forwarded_gas_budget` gives.
#[derive(Clone, Debug, PartialEq, Eq, Hash)]
pub struct Outcomes {
    /// The relayer registry knows the caller.
    pub caller_is_relayer: bool,
    /// The verifier accepted the proof.
    pub proof_valid: bool,
    /// The account the recipient's salt resolves to.
    pub recipient: Address,
    /// The gas available to the call.
    pub gas_left: u128,
    /// The asset transfer succeeded.
    pub transfer_ok: bool,
    /// The forwarded callback succeeded.
    pub callback_success: bool,
    /// What the forwarded callback returned.
    pub callback_return_data: Vec<u8>,
}

} // verus!
