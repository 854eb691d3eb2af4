//! The workflow state machine. One workflow attempt runs: generate an
//! identity, persist its secret, import the funding account, resolve a
//! funding object, submit the transfer, resolve the recipient's new coin from
//! the transfer's confirmed effects, and submit the mint call. The
//! surrounding program performs each requested action against the blockchain
//! collaborator and feeds the outcome back as an event; this module decides,
//! for every state and event, the next state and the next action.
//!
//! The recipient's coin is selected from the effects of the transfer at a
//! confirmation level that waits for execution, so the coin is visible before
//! the mint step; the machine therefore moves from `FundingResolved` straight
//! to `RecipientResolved` when the confirmed effects arrive. The mint call is
//! signed by the generated identity, which is also its sender.

use crate::config::RunConfig;
use crate::config::RunConfigModel;
use crate::ident::Address;
use crate::ident::ID_LEN;
use crate::ident::ObjectId;
use crate::resolve::BalanceChange;
use crate::resolve::BalanceChangeModel;
use crate::resolve::OwnedObject;
use crate::resolve::OwnedObjectModel;
use crate::resolve::changes_view;
use crate::resolve::changes_wf;
use crate::resolve::first_coin;
use crate::resolve::first_coin_spec;
use crate::resolve::lemma_first_coin_wf;
use crate::resolve::lemma_first_receive_wf;
use crate::resolve::first_receive;
use crate::resolve::first_receive_spec;
use crate::resolve::owned_view;
use crate::resolve::owned_wf;
use vstd::prelude::*;
use vstd::string::StringExecFns;

verus! {

/// Why a workflow attempt aborted. `KeyImport` covers both keystore
/// operations: generating the fresh key and importing the seed mnemonic.
#[derive(Clone, Copy, PartialEq, Eq, Structural, Debug)]
pub enum AbortReason {
    KeyImport,
    ObjectResolution,
    TransactionBuild,
    Submission,
    Io,
}

/// The package identifier of the on-chain framework that publishes the
/// minted module: zero bytes ending in 2.
pub open spec fn framework_package_spec() -> Seq<u8> {
    Seq::new(ID_LEN as nat, |i: int| if i == ID_LEN - 1 { 2u8 } else { 0u8 })
}

/// A module-call transaction request that mints the fixed token.
pub struct MintRequest {
    pub sender: Address,
    pub package: ObjectId,
    pub module_name: String,
    pub function_name: String,
    pub nft_name: String,
    pub nft_description: String,
    pub nft_url: String,
    pub fee_object: ObjectId,
    pub budget: u64,
}

/// The spec view of a mint request.
pub struct MintRequestModel {
    pub sender: Seq<u8>,
    pub package: Seq<u8>,
    pub module_name: Seq<char>,
    pub function_name: Seq<char>,
    pub nft_name: Seq<char>,
    pub nft_description: Seq<char>,
    pub nft_url: Seq<char>,
    pub fee_object: Seq<u8>,
    pub budget: u64,
}

impl View for MintRequest {
    type V = MintRequestModel;

    open spec fn view(&self) -> MintRequestModel {
        MintRequestModel {
            sender: self.sender.bytes@,
            package: self.package.bytes@,
            module_name: self.module_name@,
            function_name: self.function_name@,
            nft_name: self.nft_name@,
            nft_description: self.nft_description@,
            nft_url: self.nft_url@,
            fee_object: self.fee_object.bytes@,
            budget: self.budget,
        }
    }
}

/// The mint request for a given sender, fee object and budget: the package,
/// module, function and token arguments are fixed.
pub open spec fn mint_request_spec(sender: Seq<u8>, fee_object: Seq<u8>, budget: u64)
    -> MintRequestModel {
    MintRequestModel {
        sender,
        package: framework_package_spec(),
        module_name: "devnet_nft"@,
        function_name: "mint"@,
        nft_name: "Qknow NFT"@,
        nft_description: "An NFT created by the Sui Command Line Tool"@,
        nft_url: "ipfs://bafkreibngqhl3gaa7daob4i2vccziay2jjlp435cf66vhono7nrvww53ty"@,
        fee_object,
        budget,
    }
}

/// Build the mint request for a sender, a fee object and a budget.
pub fn mint_request(sender: Address, fee_object: ObjectId, budget: u64) -> (r: MintRequest)
    ensures
        r@ == mint_request_spec(sender.bytes@, fee_object.bytes@, budget),
{
    let mut package_bytes: Vec<u8> = Vec::new();
    let mut i: usize = 0;
    while i < ID_LEN - 1
        invariant
            i <= ID_LEN - 1,
            package_bytes@.len() == i,
            forall|k: int| 0 <= k < i ==> package_bytes@[k] == 0u8,
        decreases ID_LEN - i,
    {
        package_bytes.push(0);
        i = i + 1;
    }
    package_bytes.push(2);
    proof {
        assert(package_bytes@ =~= framework_package_spec());
    }
    MintRequest {
        sender,
        package: ObjectId { bytes: package_bytes },
        module_name: String::from_str("devnet_nft"),
        function_name: String::from_str("mint"),
        nft_name: String::from_str("Qknow NFT"),
        nft_description: String::from_str("An NFT created by the Sui Command Line Tool"),
        nft_url: String::from_str(
            "ipfs://bafkreibngqhl3gaa7daob4i2vccziay2jjlp435cf66vhono7nrvww53ty",
        ),
        fee_object,
        budget,
    }
}

/// Where one workflow attempt stands.
pub enum WorkflowState {
    Created,
    IdentityGenerated { address: Address, mnemonic: String },
    Persisted { address: Address },
    FunderImported { address: Address, funder: Address },
    FundingResolved { address: Address, funder: Address, gas: ObjectId },
    RecipientResolved { address: Address, fee: ObjectId },
    Minted,
    Aborted { reason: AbortReason },
}

/// The spec view of a workflow state.
pub enum StateModel {
    Created,
    IdentityGenerated { address: Seq<u8>, mnemonic: Seq<char> },
    Persisted { address: Seq<u8> },
    FunderImported { address: Seq<u8>, funder: Seq<u8> },
    FundingResolved { address: Seq<u8>, funder: Seq<u8>, gas: Seq<u8> },
    RecipientResolved { address: Seq<u8>, fee: Seq<u8> },
    Minted,
    Aborted { reason: AbortReason },
}

impl View for WorkflowState {
    type V = StateModel;

    open spec fn view(&self) -> StateModel {
        match self {
            WorkflowState::Created => StateModel::Created,
            WorkflowState::IdentityGenerated { address, mnemonic } => StateModel::IdentityGenerated {
                address: address.bytes@,
                mnemonic: mnemonic@,
            },
            WorkflowState::Persisted { address } => StateModel::Persisted {
                address: address.bytes@,
            },
            WorkflowState::FunderImported { address, funder } => StateModel::FunderImported {
                address: address.bytes@,
                funder: funder.bytes@,
            },
            WorkflowState::FundingResolved { address, funder, gas } => StateModel::FundingResolved {
                address: address.bytes@,
                funder: funder.bytes@,
                gas: gas.bytes@,
            },
            WorkflowState::RecipientResolved { address, fee } => StateModel::RecipientResolved {
                address: address.bytes@,
                fee: fee.bytes@,
            },
            WorkflowState::Minted => StateModel::Minted,
            WorkflowState::Aborted { reason } => StateModel::Aborted { reason: *reason },
        }
    }
}

/// What the collaborator reported back for the last requested action.
pub enum WorkflowEvent {
    KeyGenerated { address: Address, mnemonic: String },
    KeyGenerationFailed,
    SecretPersisted,
    PersistFailed,
    FunderImported { funder: Address },
    ImportFailed,
    OwnedObjectsListed { objects: Vec<OwnedObject> },
    ListingFailed,
    TransferExecuted { changes: Vec<BalanceChange> },
    TransferBuildFailed,
    TransferSubmitFailed,
    MintExecuted,
    MintBuildFailed,
    MintSubmitFailed,
}

/// The spec view of an event.
pub enum EventModel {
    KeyGenerated { address: Seq<u8>, mnemonic: Seq<char> },
    KeyGenerationFailed,
    SecretPersisted,
    PersistFailed,
    FunderImported { funder: Seq<u8> },
    ImportFailed,
    OwnedObjectsListed { objects: Seq<OwnedObjectModel> },
    ListingFailed,
    TransferExecuted { changes: Seq<BalanceChangeModel> },
    TransferBuildFailed,
    TransferSubmitFailed,
    MintExecuted,
    MintBuildFailed,
    MintSubmitFailed,
}

impl View for WorkflowEvent {
    type V = EventModel;

    open spec fn view(&self) -> EventModel {
        match self {
            WorkflowEvent::KeyGenerated { address, mnemonic } => EventModel::KeyGenerated {
                address: address.bytes@,
                mnemonic: mnemonic@,
            },
            WorkflowEvent::KeyGenerationFailed => EventModel::KeyGenerationFailed,
            WorkflowEvent::SecretPersisted => EventModel::SecretPersisted,
            WorkflowEvent::PersistFailed => EventModel::PersistFailed,
            WorkflowEvent::FunderImported { funder } => EventModel::FunderImported {
                funder: funder.bytes@,
            },
            WorkflowEvent::ImportFailed => EventModel::ImportFailed,
            WorkflowEvent::OwnedObjectsListed { objects } => EventModel::OwnedObjectsListed {
                objects: owned_view(objects@),
            },
            WorkflowEvent::ListingFailed => EventModel::ListingFailed,
            WorkflowEvent::TransferExecuted { changes } => EventModel::TransferExecuted {
                changes: changes_view(changes@),
            },
            WorkflowEvent::TransferBuildFailed => EventModel::TransferBuildFailed,
            WorkflowEvent::TransferSubmitFailed => EventModel::TransferSubmitFailed,
            WorkflowEvent::MintExecuted => EventModel::MintExecuted,
            WorkflowEvent::MintBuildFailed => EventModel::MintBuildFailed,
            WorkflowEvent::MintSubmitFailed => EventModel::MintSubmitFailed,
        }
    }
}

/// What the surrounding program must do next.
pub enum WorkflowAction {
    GenerateIdentity,
    PersistSecret { address: Address, mnemonic: String },
    ImportFunder { mnemonic: String },
    ListOwnedObjects { owner: Address },
    SubmitTransfer { from: Address, to: Address, gas: ObjectId, amount: u64, budget: u64 },
    SubmitMint { request: MintRequest },
    Finished,
}

/// The spec view of an action.
pub enum ActionModel {
    GenerateIdentity,
    PersistSecret { address: Seq<u8>, mnemonic: Seq<char> },
    ImportFunder { mnemonic: Seq<char> },
    ListOwnedObjects { owner: Seq<u8> },
    SubmitTransfer { from: Seq<u8>, to: Seq<u8>, gas: Seq<u8>, amount: u64, budget: u64 },
    SubmitMint { request: MintRequestModel },
    Finished,
}

impl View for WorkflowAction {
    type V = ActionModel;

    open spec fn view(&self) -> ActionModel {
        match self {
            WorkflowAction::GenerateIdentity => ActionModel::GenerateIdentity,
            WorkflowAction::PersistSecret { address, mnemonic } => ActionModel::PersistSecret {
                address: address.bytes@,
                mnemonic: mnemonic@,
            },
            WorkflowAction::ImportFunder { mnemonic } => ActionModel::ImportFunder {
                mnemonic: mnemonic@,
            },
            WorkflowAction::ListOwnedObjects { owner } => ActionModel::ListOwnedObjects {
                owner: owner.bytes@,
            },
            WorkflowAction::SubmitTransfer { from, to, gas, amount, budget } => ActionModel::SubmitTransfer {
                from: from.bytes@,
                to: to.bytes@,
                gas: gas.bytes@,
                amount: *amount,
                budget: *budget,
            },
            WorkflowAction::SubmitMint { request } => ActionModel::SubmitMint { request: request@ },
            WorkflowAction::Finished => ActionModel::Finished,
        }
    }
}

/// Whether a state's identifiers are well-formed.
pub open spec fn state_wf(s: StateModel) -> bool {
    match s {
        StateModel::Created => true,
        StateModel::IdentityGenerated { address, .. } => address.len() == ID_LEN,
        StateModel::Persisted { address } => address.len() == ID_LEN,
        StateModel::FunderImported { address, funder } => address.len() == ID_LEN && funder.len()
            == ID_LEN,
        StateModel::FundingResolved { address, funder, gas } => address.len() == ID_LEN
            && funder.len() == ID_LEN && gas.len() == ID_LEN,
        StateModel::RecipientResolved { address, fee } => address.len() == ID_LEN && fee.len()
            == ID_LEN,
        StateModel::Minted => true,
        StateModel::Aborted { .. } => true,
    }
}

/// Whether an event is one the given state awaits, with well-formed payload.
pub open spec fn event_fits(s: StateModel, e: EventModel) -> bool {
    match (s, e) {
        (StateModel::Created, EventModel::KeyGenerated { address, .. }) => address.len() == ID_LEN,
        (StateModel::Created, EventModel::KeyGenerationFailed) => true,
        (StateModel::IdentityGenerated { .. }, EventModel::SecretPersisted) => true,
        (StateModel::IdentityGenerated { .. }, EventModel::PersistFailed) => true,
        (StateModel::Persisted { .. }, EventModel::FunderImported { funder }) => funder.len()
            == ID_LEN,
        (StateModel::Persisted { .. }, EventModel::ImportFailed) => true,
        (StateModel::FunderImported { .. }, EventModel::OwnedObjectsListed { objects }) => owned_wf(
            objects,
        ),
        (StateModel::FunderImported { .. }, EventModel::ListingFailed) => true,
        (StateModel::FundingResolved { .. }, EventModel::TransferExecuted { changes }) => changes_wf(
            changes,
        ),
        (StateModel::FundingResolved { .. }, EventModel::TransferBuildFailed) => true,
        (StateModel::FundingResolved { .. }, EventModel::TransferSubmitFailed) => true,
        (StateModel::RecipientResolved { .. }, EventModel::MintExecuted) => true,
        (StateModel::RecipientResolved { .. }, EventModel::MintBuildFailed) => true,
        (StateModel::RecipientResolved { .. }, EventModel::MintSubmitFailed) => true,
        _ => false,
    }
}

/// The transition relation: for a state and an event, the next state and the
/// next action. An event that the state does not await changes nothing and
/// asks for nothing.
pub open spec fn step_spec(config: RunConfigModel, s: StateModel, e: EventModel) -> (
    StateModel,
    ActionModel,
) {
    match (s, e) {
        (StateModel::Created, EventModel::KeyGenerated { address, mnemonic }) => (
            StateModel::IdentityGenerated { address, mnemonic },
            ActionModel::PersistSecret { address, mnemonic },
        ),
        (StateModel::Created, EventModel::KeyGenerationFailed) => (
            StateModel::Aborted { reason: AbortReason::KeyImport },
            ActionModel::Finished,
        ),
        (StateModel::IdentityGenerated { address, .. }, EventModel::SecretPersisted) => (
            StateModel::Persisted { address },
            ActionModel::ImportFunder { mnemonic: config.seed_mnemonic },
        ),
        (StateModel::IdentityGenerated { .. }, EventModel::PersistFailed) => (
            StateModel::Aborted { reason: AbortReason::Io },
            ActionModel::Finished,
        ),
        (StateModel::Persisted { address }, EventModel::FunderImported { funder }) => match config
            .funding_object {
            Some(gas) => (
                StateModel::FundingResolved { address, funder, gas },
                ActionModel::SubmitTransfer {
                    from: funder,
                    to: address,
                    gas,
                    amount: config.transfer_amount,
                    budget: config.transfer_budget,
                },
            ),
            None => (
                StateModel::FunderImported { address, funder },
                ActionModel::ListOwnedObjects { owner: funder },
            ),
        },
        (StateModel::Persisted { .. }, EventModel::ImportFailed) => (
            StateModel::Aborted { reason: AbortReason::KeyImport },
            ActionModel::Finished,
        ),
        (
            StateModel::FunderImported { address, funder },
            EventModel::OwnedObjectsListed { objects },
        ) => match first_coin_spec(objects) {
            Some(gas) => (
                StateModel::FundingResolved { address, funder, gas },
                ActionModel::SubmitTransfer {
                    from: funder,
                    to: address,
                    gas,
                    amount: config.transfer_amount,
                    budget: config.transfer_budget,
                },
            ),
            None => (
                StateModel::Aborted { reason: AbortReason::ObjectResolution },
                ActionModel::Finished,
            ),
        },
        (StateModel::FunderImported { .. }, EventModel::ListingFailed) => (
            StateModel::Aborted { reason: AbortReason::Submission },
            ActionModel::Finished,
        ),
        (
            StateModel::FundingResolved { address, .. },
            EventModel::TransferExecuted { changes },
        ) => match first_receive_spec(changes) {
            Some(fee) => (
                StateModel::RecipientResolved { address, fee },
                ActionModel::SubmitMint {
                    request: mint_request_spec(address, fee, config.mint_budget),
                },
            ),
            None => (
                StateModel::Aborted { reason: AbortReason::ObjectResolution },
                ActionModel::Finished,
            ),
        },
        (StateModel::FundingResolved { .. }, EventModel::TransferBuildFailed) => (
            StateModel::Aborted { reason: AbortReason::TransactionBuild },
            ActionModel::Finished,
        ),
        (StateModel::FundingResolved { .. }, EventModel::TransferSubmitFailed) => (
            StateModel::Aborted { reason: AbortReason::Submission },
            ActionModel::Finished,
        ),
        (StateModel::RecipientResolved { .. }, EventModel::MintExecuted) => (
            StateModel::Minted,
            ActionModel::Finished,
        ),
        (StateModel::RecipientResolved { .. }, EventModel::MintBuildFailed) => (
            StateModel::Aborted { reason: AbortReason::TransactionBuild },
            ActionModel::Finished,
        ),
        (StateModel::RecipientResolved { .. }, EventModel::MintSubmitFailed) => (
            StateModel::Aborted { reason: AbortReason::Submission },
            ActionModel::Finished,
        ),
        _ => (s, ActionModel::Finished),
    }
}

/// A fresh attempt and the first action to perform for it.
pub fn workflow_start() -> (r: (WorkflowState, WorkflowAction))
    ensures
        r.0@ == StateModel::Created,
        r.1@ == ActionModel::GenerateIdentity,
{
    (WorkflowState::Created, WorkflowAction::GenerateIdentity)
}

/// Advance one attempt by one event: returns exactly what the transition
/// relation prescribes.
pub fn workflow_step(config: &RunConfig, state: WorkflowState, event: WorkflowEvent) -> (r: (
    WorkflowState,
    WorkflowAction,
))
    requires
        config.wf(),
        state_wf(state@),
        event_fits(state@, event@),
    ensures
        (r.0@, r.1@) == step_spec(config@, state@, event@),
        state_wf(r.0@),
{
    match (state, event) {
        (WorkflowState::Created, WorkflowEvent::KeyGenerated { address, mnemonic }) => {
            let address2 = address.clone_addr();
            let mnemonic2 = mnemonic.clone();
            (
                WorkflowState::IdentityGenerated { address, mnemonic },
                WorkflowAction::PersistSecret { address: address2, mnemonic: mnemonic2 },
            )
        },
        (WorkflowState::Created, WorkflowEvent::KeyGenerationFailed) => (
            WorkflowState::Aborted { reason: AbortReason::KeyImport },
            WorkflowAction::Finished,
        ),
        (
            WorkflowState::IdentityGenerated { address, mnemonic: _ },
            WorkflowEvent::SecretPersisted,
        ) => (
            WorkflowState::Persisted { address },
            WorkflowAction::ImportFunder { mnemonic: config.seed_mnemonic.clone() },
        ),
        (WorkflowState::IdentityGenerated { .. }, WorkflowEvent::PersistFailed) => (
            WorkflowState::Aborted { reason: AbortReason::Io },
            WorkflowAction::Finished,
        ),
        (WorkflowState::Persisted { address }, WorkflowEvent::FunderImported { funder }) => {
            match &config.funding_object {
                Some(gas) => {
                    let funder2 = funder.clone_addr();
                    let address2 = address.clone_addr();
                    let gas2 = gas.clone_id();
                    (
                        WorkflowState::FundingResolved { address, funder, gas: gas.clone_id() },
                        WorkflowAction::SubmitTransfer {
                            from: funder2,
                            to: address2,
                            gas: gas2,
                            amount: config.transfer_amount,
                            budget: config.transfer_budget,
                        },
                    )
                },
                None => {
                    let funder2 = funder.clone_addr();
                    (
                        WorkflowState::FunderImported { address, funder },
                        WorkflowAction::ListOwnedObjects { owner: funder2 },
                    )
                },
            }
        },
        (WorkflowState::Persisted { .. }, WorkflowEvent::ImportFailed) => (
            WorkflowState::Aborted { reason: AbortReason::KeyImport },
            WorkflowAction::Finished,
        ),
        (
            WorkflowState::FunderImported { address, funder },
            WorkflowEvent::OwnedObjectsListed { objects },
        ) => {
            match first_coin(&objects) {
                Some(gas) => {
                    proof {
                        lemma_first_coin_wf(owned_view(objects@));
                    }
                    let funder2 = funder.clone_addr();
                    let address2 = address.clone_addr();
                    let gas2 = gas.clone_id();
                    (
                        WorkflowState::FundingResolved { address, funder, gas },
                        WorkflowAction::SubmitTransfer {
                            from: funder2,
                            to: address2,
                            gas: gas2,
                            amount: config.transfer_amount,
                            budget: config.transfer_budget,
                        },
                    )
                },
                None => (
                    WorkflowState::Aborted { reason: AbortReason::ObjectResolution },
                    WorkflowAction::Finished,
                ),
            }
        },
        (WorkflowState::FunderImported { .. }, WorkflowEvent::ListingFailed) => (
            WorkflowState::Aborted { reason: AbortReason::Submission },
            WorkflowAction::Finished,
        ),
        (
            WorkflowState::FundingResolved { address, funder: _, gas: _ },
            WorkflowEvent::TransferExecuted { changes },
        ) => {
            match first_receive(&changes) {
                Some(fee) => {
                    proof {
                        lemma_first_receive_wf(changes_view(changes@));
                    }
                    let address2 = address.clone_addr();
                    let fee2 = fee.clone_id();
                    let request = mint_request(address2, fee2, config.mint_budget);
                    (
                        WorkflowState::RecipientResolved { address, fee },
                        WorkflowAction::SubmitMint { request },
                    )
                },
                None => (
                    WorkflowState::Aborted { reason: AbortReason::ObjectResolution },
                    WorkflowAction::Finished,
                ),
            }
        },
        (WorkflowState::FundingResolved { .. }, WorkflowEvent::TransferBuildFailed) => (
            WorkflowState::Aborted { reason: AbortReason::TransactionBuild },
            WorkflowAction::Finished,
        ),
        (WorkflowState::FundingResolved { .. }, WorkflowEvent::TransferSubmitFailed) => (
            WorkflowState::Aborted { reason: AbortReason::Submission },
            WorkflowAction::Finished,
        ),
        (WorkflowState::RecipientResolved { .. }, WorkflowEvent::MintExecuted) => (
            WorkflowState::Minted,
            WorkflowAction::Finished,
        ),
        (WorkflowState::RecipientResolved { .. }, WorkflowEvent::MintBuildFailed) => (
            WorkflowState::Aborted { reason: AbortReason::TransactionBuild },
            WorkflowAction::Finished,
        ),
        (WorkflowState::RecipientResolved { .. }, WorkflowEvent::MintSubmitFailed) => (
            WorkflowState::Aborted { reason: AbortReason::Submission },
            WorkflowAction::Finished,
        ),
        // no remaining pair fits any state; the precondition excludes them
        (_, _) => (
            WorkflowState::Aborted { reason: AbortReason::KeyImport },
            WorkflowAction::Finished,
        ),
    }
}

/// Whether an attempt in this state is finished, one way or the other.
pub fn is_terminal(state: &WorkflowState) -> (r: bool)
    ensures
        r == (state@ is Minted || state@ is Aborted),
{
    match state {
        WorkflowState::Minted => true,
        WorkflowState::Aborted { .. } => true,
        _ => false,
    }
}

/// Whether an attempt in this state succeeded.
pub fn is_success(state: &WorkflowState) -> (r: bool)
    ensures
        r == (state@ is Minted),
{
    match state {
        WorkflowState::Minted => true,
        _ => false,
    }
}

/// The state an attempt reaches from `s` after the whole event sequence.
pub open spec fn run_state(config: RunConfigModel, s: StateModel, events: Seq<EventModel>)
    -> StateModel
    decreases events.len(),
{
    if events.len() == 0 {
        s
    } else {
        run_state(config, step_spec(config, s, events[0]).0, events.skip(1))
    }
}

/// The actions an attempt requests from `s` along the whole event sequence.
pub open spec fn run_actions(config: RunConfigModel, s: StateModel, events: Seq<EventModel>)
    -> Seq<ActionModel>
    decreases events.len(),
{
    if events.len() == 0 {
        Seq::empty()
    } else {
        seq![step_spec(config, s, events[0]).1] + run_actions(
            config,
            step_spec(config, s, events[0]).0,
            events.skip(1),
        )
    }
}

/// An aborted attempt stays aborted with the same reason and never requests
/// another action, whatever events still arrive.
pub proof fn lemma_aborted_absorbing(
    config: RunConfigModel,
    reason: AbortReason,
    events: Seq<EventModel>,
)
    ensures
        run_state(config, (StateModel::Aborted { reason }), events) == (StateModel::Aborted {
            reason,
        }),
        forall|i: int|
            0 <= i < events.len() ==> run_actions(config, (StateModel::Aborted { reason }), events)[i]
                == ActionModel::Finished,
        run_actions(config, (StateModel::Aborted { reason }), events).len() == events.len(),
    decreases events.len(),
{
    if events.len() > 0 {
        lemma_aborted_absorbing(config, reason, events.skip(1));
    }
}

/// If the listing of the funding address's objects holds no fungible-token
/// object, the attempt aborts with the object-resolution error and never
/// requests a transfer, a mint, or anything else, whatever events still
/// arrive: resolution failure leaves no partial on-chain state behind.
pub proof fn lemma_empty_resolution_aborts(
    config: RunConfigModel,
    address: Seq<u8>,
    funder: Seq<u8>,
    events: Seq<EventModel>,
)
    requires
        events.len() >= 1,
        (events[0] matches EventModel::OwnedObjectsListed { objects } && first_coin_spec(objects)
            is None),
    ensures
        run_state(config, (StateModel::FunderImported { address, funder }), events)
            == (StateModel::Aborted { reason: AbortReason::ObjectResolution }),
        forall|i: int|
            0 <= i < events.len() ==> run_actions(
                config,
                (StateModel::FunderImported { address, funder }),
                events,
            )[i] == ActionModel::Finished,
{
    let s0 = StateModel::FunderImported { address, funder };
    let aborted = StateModel::Aborted { reason: AbortReason::ObjectResolution };
    assert(step_spec(config, s0, events[0]).0 == aborted);
    assert(step_spec(config, s0, events[0]).1 == ActionModel::Finished);
    lemma_aborted_absorbing(config, AbortReason::ObjectResolution, events.skip(1));
    assert forall|i: int| 0 <= i < events.len() implies run_actions(config, s0, events)[i]
        == ActionModel::Finished by {
        if i > 0 {
            assert(run_actions(config, s0, events)[i] == run_actions(config, aborted, events.skip(1))[
                i - 1
            ]);
        }
    }
}

} // verus!
