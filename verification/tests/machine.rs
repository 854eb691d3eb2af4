use batchmint::config::{
    parse_run_config, ConfigError, RunConfig, DEFAULT_MINT_BUDGET, DEFAULT_TRANSFER_AMOUNT,
    DEFAULT_TRANSFER_BUDGET,
};
use batchmint::driver::{aggregate, continue_after, plan_attempts, AttemptOutcome, Scheduling};
use batchmint::ident::{Address, ObjectId};
use batchmint::resolve::{first_coin, first_receive, BalanceChange, ChangeKind, OwnedObject};
use batchmint::workflow::{
    is_success, is_terminal, workflow_start, workflow_step, AbortReason, WorkflowAction,
    WorkflowEvent, WorkflowState,
};

fn expect_err(r: Result<RunConfig, ConfigError>) -> ConfigError {
    match r {
        Err(e) => e,
        Ok(_) => panic!("expected a configuration error"),
    }
}

fn addr(byte: u8) -> Address {
    Address::new(vec![byte; 20])
}

fn oid(byte: u8) -> ObjectId {
    ObjectId::new(vec![byte; 20])
}

fn config(funding: Option<ObjectId>, repeat_count: u64) -> RunConfig {
    RunConfig {
        seed_mnemonic: String::from("M"),
        funding_object: funding,
        repeat_count,
        transfer_amount: DEFAULT_TRANSFER_AMOUNT,
        transfer_budget: DEFAULT_TRANSFER_BUDGET,
        mint_budget: DEFAULT_MINT_BUDGET,
    }
}

fn owned(id_byte: u8, type_tag: &str) -> OwnedObject {
    OwnedObject {
        id: oid(id_byte),
        type_tag: String::from(type_tag),
    }
}

#[test]
fn test_get_first_object_id() {
    // Only objects of the fungible-token type count, and the first in
    // listing order wins.
    let objs = vec![
        owned(0x01, "0x2::devnet_nft::DevNetNFT"),
        owned(0x02, "0x2::coin::Coin<0x2::sui::SUI>"),
        owned(0x03, "0x2::coin::Coin<0x2::sui::SUI>"),
    ];
    let picked = first_coin(&objs).expect("a coin is listed");
    assert_eq!(picked.bytes, vec![0x02; 20]);
    assert!(first_coin(&Vec::new()).is_none());
}

#[test]
fn first_receive_picks_first_receive_change() {
    let changes = vec![
        BalanceChange { kind: ChangeKind::Gas, coin_object_id: oid(0x0a) },
        BalanceChange { kind: ChangeKind::Pay, coin_object_id: oid(0x0b) },
        BalanceChange { kind: ChangeKind::Receive, coin_object_id: oid(0x0c) },
        BalanceChange { kind: ChangeKind::Receive, coin_object_id: oid(0x0d) },
    ];
    let picked = first_receive(&changes).expect("a receive change exists");
    assert_eq!(picked.bytes, vec![0x0c; 20]);
    assert!(first_receive(&Vec::new()).is_none());
}

#[test]
fn parse_config_full_form() {
    let args = vec![
        String::from("batchmint"),
        String::from("wing decade ladder"),
        String::from("0x0f0f0f0f0f0f0f0f0f0f0f0f0f0f0f0f0f0f0f0f"),
        String::from("3"),
    ];
    let c = parse_run_config(&args).expect("well-formed arguments");
    assert_eq!(c.seed_mnemonic, "wing decade ladder");
    assert_eq!(c.funding_object.as_ref().unwrap().bytes, vec![0x0f; 20]);
    assert_eq!(c.repeat_count, 3);
    assert_eq!(c.transfer_amount, 1000);
    assert_eq!(c.transfer_budget, 30000);
    assert_eq!(c.mint_budget, 10000);
}

#[test]
fn parse_config_omitted_funding() {
    let args = vec![
        String::from("batchmint"),
        String::from("wing decade ladder"),
        String::from("2"),
    ];
    let c = parse_run_config(&args).expect("well-formed arguments");
    assert!(c.funding_object.is_none());
    assert_eq!(c.repeat_count, 2);
}

#[test]
fn parse_config_errors() {
    let base = String::from("batchmint");
    assert_eq!(expect_err(parse_run_config(&vec![base.clone()])), ConfigError::ArgCount);
    assert_eq!(
        expect_err(parse_run_config(&vec![base.clone(), String::from("m")])),
        ConfigError::ArgCount
    );
    assert_eq!(
        expect_err(parse_run_config(&vec![
            base.clone(),
            String::from("m"),
            String::from("not-an-id"),
            String::from("2"),
        ])),
        ConfigError::BadFundingObject
    );
    assert_eq!(
        expect_err(parse_run_config(&vec![base.clone(), String::from("m"), String::from("0")])),
        ConfigError::BadRepeatCount
    );
    assert_eq!(
        expect_err(parse_run_config(&vec![base.clone(), String::from("m"), String::from("two")])),
        ConfigError::BadRepeatCount
    );
    // a count that overflows 64 bits is rejected
    assert_eq!(
        expect_err(parse_run_config(&vec![
            base.clone(),
            String::from("m"),
            String::from("18446744073709551616"),
        ])),
        ConfigError::BadRepeatCount
    );
    // the largest representable count is accepted
    let c = parse_run_config(&vec![
        base,
        String::from("m"),
        String::from("18446744073709551615"),
    ])
    .expect("maximum count parses");
    assert_eq!(c.repeat_count, u64::MAX);
}

#[test]
fn plan_launches_exactly_n_attempts() {
    for n in 1..6u64 {
        let c = config(None, n);
        let plan = plan_attempts(&c);
        assert_eq!(plan.len() as u64, n);
        for (i, v) in plan.iter().enumerate() {
            assert_eq!(*v, i as u64);
        }
    }
}

#[test]
fn aggregate_keeps_every_failure() {
    let outcomes = vec![
        AttemptOutcome::Success,
        AttemptOutcome::Failed { reason: AbortReason::ObjectResolution },
        AttemptOutcome::Success,
        AttemptOutcome::Failed { reason: AbortReason::Submission },
    ];
    let report = aggregate(&outcomes);
    assert_eq!(report.total, 4);
    assert_eq!(report.failures, vec![1, 3]);
    assert!(!report.ok());

    let all_good = vec![AttemptOutcome::Success, AttemptOutcome::Success];
    let report = aggregate(&all_good);
    assert_eq!(report.total, 2);
    assert!(report.ok());
}

#[test]
fn sequential_stops_on_failure_concurrent_does_not() {
    let failed = AttemptOutcome::Failed { reason: AbortReason::Io };
    let ok = AttemptOutcome::Success;
    assert!(continue_after(Scheduling::Sequential, &ok));
    assert!(!continue_after(Scheduling::Sequential, &failed));
    assert!(continue_after(Scheduling::Concurrent, &ok));
    assert!(continue_after(Scheduling::Concurrent, &failed));
}

/// Drive one attempt with a funding object supplied, checking every action
/// along the way; returns the terminal state.
fn run_one_attempt_with_funding(c: &RunConfig) -> WorkflowState {
    let (state, action) = workflow_start();
    assert!(matches!(action, WorkflowAction::GenerateIdentity));

    let new_addr = addr(0xaa);
    let mnemonic = String::from("fresh generated phrase");
    let (state, action) = workflow_step(
        c,
        state,
        WorkflowEvent::KeyGenerated { address: addr(0xaa), mnemonic: mnemonic.clone() },
    );
    match &action {
        WorkflowAction::PersistSecret { address, mnemonic: m } => {
            assert_eq!(address.bytes, new_addr.bytes);
            assert_eq!(*m, mnemonic);
        }
        _ => panic!("expected a persist action"),
    }

    let (state, action) = workflow_step(c, state, WorkflowEvent::SecretPersisted);
    match &action {
        WorkflowAction::ImportFunder { mnemonic } => assert_eq!(mnemonic, "M"),
        _ => panic!("expected an import action"),
    }

    let (state, action) =
        workflow_step(c, state, WorkflowEvent::FunderImported { funder: addr(0xbb) });
    // the supplied funding object is used verbatim: no listing is requested
    match &action {
        WorkflowAction::SubmitTransfer { from, to, gas, amount, budget } => {
            assert_eq!(from.bytes, vec![0xbb; 20]);
            assert_eq!(to.bytes, vec![0xaa; 20]);
            assert_eq!(gas.bytes, vec![0x0f; 20]);
            assert_eq!(*amount, 1000);
            assert_eq!(*budget, 30000);
        }
        _ => panic!("expected a transfer, not a listing"),
    }

    let changes = vec![
        BalanceChange { kind: ChangeKind::Pay, coin_object_id: oid(0x31) },
        BalanceChange { kind: ChangeKind::Receive, coin_object_id: oid(0x32) },
    ];
    let (state, action) = workflow_step(c, state, WorkflowEvent::TransferExecuted { changes });
    match &action {
        WorkflowAction::SubmitMint { request } => {
            // the mint pays with the coin discovered after the confirmed transfer
            assert_eq!(request.fee_object.bytes, vec![0x32; 20]);
            assert_eq!(request.sender.bytes, vec![0xaa; 20]);
            assert_eq!(
                request.package.to_text(),
                "0x0000000000000000000000000000000000000002"
            );
            assert_eq!(request.module_name, "devnet_nft");
            assert_eq!(request.function_name, "mint");
            assert_eq!(request.nft_name, "Qknow NFT");
            assert_eq!(
                request.nft_description,
                "An NFT created by the Sui Command Line Tool"
            );
            assert_eq!(
                request.nft_url,
                "ipfs://bafkreibngqhl3gaa7daob4i2vccziay2jjlp435cf66vhono7nrvww53ty"
            );
            assert_eq!(request.budget, 10000);
        }
        _ => panic!("expected a mint request"),
    }

    let (state, action) = workflow_step(c, state, WorkflowEvent::MintExecuted);
    assert!(matches!(action, WorkflowAction::Finished));
    assert!(is_terminal(&state));
    assert!(is_success(&state));
    state
}

#[test]
fn end_to_end_two_attempts_with_funding() {
    let funding = ObjectId::from_text("0x0f0f0f0f0f0f0f0f0f0f0f0f0f0f0f0f0f0f0f0f").unwrap();
    let c = config(Some(funding), 2);
    let plan = plan_attempts(&c);
    assert_eq!(plan.len(), 2);
    let mut outcomes: Vec<AttemptOutcome> = Vec::new();
    for _ in &plan {
        let terminal = run_one_attempt_with_funding(&c);
        assert!(matches!(terminal, WorkflowState::Minted));
        outcomes.push(AttemptOutcome::Success);
    }
    let report = aggregate(&outcomes);
    assert_eq!(report.total, 2);
    assert!(report.ok());
}

#[test]
fn empty_resolution_aborts_before_any_transfer() {
    // funding object omitted and the funding address owns nothing suitable
    let c = config(None, 1);
    let (state, _) = workflow_start();
    let (state, _) = workflow_step(
        &c,
        state,
        WorkflowEvent::KeyGenerated { address: addr(0x0a), mnemonic: String::from("p") },
    );
    let (state, _) = workflow_step(&c, state, WorkflowEvent::SecretPersisted);
    let (state, action) =
        workflow_step(&c, state, WorkflowEvent::FunderImported { funder: addr(0x0b) });
    // with no funding object supplied, the machine asks for a listing first
    match &action {
        WorkflowAction::ListOwnedObjects { owner } => assert_eq!(owner.bytes, vec![0x0b; 20]),
        _ => panic!("expected a listing request"),
    }
    let (state, action) =
        workflow_step(&c, state, WorkflowEvent::OwnedObjectsListed { objects: Vec::new() });
    // the attempt aborts with the object-resolution error and asks nothing more
    assert!(matches!(action, WorkflowAction::Finished));
    match &state {
        WorkflowState::Aborted { reason } => assert_eq!(*reason, AbortReason::ObjectResolution),
        _ => panic!("expected an aborted attempt"),
    }
    assert!(is_terminal(&state));
    assert!(!is_success(&state));
}

#[test]
fn listing_skips_foreign_objects() {
    let c = config(None, 1);
    let (state, _) = workflow_start();
    let (state, _) = workflow_step(
        &c,
        state,
        WorkflowEvent::KeyGenerated { address: addr(0x0a), mnemonic: String::from("p") },
    );
    let (state, _) = workflow_step(&c, state, WorkflowEvent::SecretPersisted);
    let (state, _) =
        workflow_step(&c, state, WorkflowEvent::FunderImported { funder: addr(0x0b) });
    let objects = vec![
        owned(0x41, "0x2::devnet_nft::DevNetNFT"),
        owned(0x42, "0x2::coin::Coin<0x2::sui::SUI>"),
    ];
    let (_, action) = workflow_step(&c, state, WorkflowEvent::OwnedObjectsListed { objects });
    match &action {
        WorkflowAction::SubmitTransfer { gas, .. } => assert_eq!(gas.bytes, vec![0x42; 20]),
        _ => panic!("expected a transfer paying with the listed coin"),
    }
}

#[test]
fn step_failures_abort_with_their_reasons() {
    let c = config(None, 1);
    let (state, _) = workflow_start();
    let (state, _) = workflow_step(&c, state, WorkflowEvent::KeyGenerationFailed);
    assert!(matches!(state, WorkflowState::Aborted { reason: AbortReason::KeyImport }));

    let (state, _) = workflow_start();
    let (state, _) = workflow_step(
        &c,
        state,
        WorkflowEvent::KeyGenerated { address: addr(1), mnemonic: String::from("p") },
    );
    let (state, _) = workflow_step(&c, state, WorkflowEvent::PersistFailed);
    assert!(matches!(state, WorkflowState::Aborted { reason: AbortReason::Io }));

    let (state, _) = workflow_start();
    let (state, _) = workflow_step(
        &c,
        state,
        WorkflowEvent::KeyGenerated { address: addr(1), mnemonic: String::from("p") },
    );
    let (state, _) = workflow_step(&c, state, WorkflowEvent::SecretPersisted);
    let (state, _) = workflow_step(&c, state, WorkflowEvent::ImportFailed);
    assert!(matches!(state, WorkflowState::Aborted { reason: AbortReason::KeyImport }));
}
