use std::path::PathBuf;

use base64ct::Encoding;
use integration_tests::address::Address;
use integration_tests::command::{
    build_package_args, genesis_args, genesis_status, rpc_url, spawn_failure, start_args, CliArg,
    BINARY_ENV_VAR, BINARY_NAME, CLIENT_CONFIG_FILE, LOOKUP_PROGRAM, NETWORK_CONFIG_FILE,
    STDERR_FILE, STDOUT_FILE,
};
use integration_tests::error::{Flow, HarnessError, PackageFault};
use integration_tests::headers::{
    X_SUI_CHAIN, X_SUI_CHAIN_ID, X_SUI_CHECKPOINT_HEIGHT, X_SUI_EPOCH,
    X_SUI_LOWEST_AVAILABLE_CHECKPOINT, X_SUI_LOWEST_AVAILABLE_CHECKPOINT_OBJECTS, X_SUI_TIMESTAMP,
    X_SUI_TIMESTAMP_MS,
};
use integration_tests::keys::PrivateKey;
use integration_tests::locator::{
    check_binary_available, find_myso_binary, myso_binary, BinaryCache, LookupOutput,
};
use integration_tests::network::{
    Bootstrap, BootstrapAction, Stage, SuiNetworkBuilder, SuiNetworkHandle,
    DEFAULT_EPOCH_DURATION_MS, DEFAULT_NUM_VALIDATORS, VALIDATOR_GRANT,
};
use integration_tests::package::{
    build_status, decode_build_output, decode_modules, digest_from_bytes, Digest, MoveBuildOutput,
    Publish,
};
use integration_tests::ports::{
    allocate_from, get_available_port, port_exhaustion, PortDecision, MAX_PORT_RETRIES,
};
use integration_tests::readiness::{
    wait_for_ready, Readiness, ReadinessGate, NETWORK_STARTUP_POLL_INTERVAL_SECS,
    NETWORK_STARTUP_TIMEOUT_SECS, READY_CHECKPOINT_HEIGHT,
};
use integration_tests::scalars::BigInt;
use integration_tests::transaction::{
    confirm_execution, funding_plan, upgrade_plan, BuilderCommand, TransactionPlan,
    FINALITY_TIMEOUT_SECS, READ_MASK,
};
use integration_tests::validators::ValidatorKeys;

fn key(seed: u8) -> PrivateKey {
    PrivateKey { bytes: [seed; 32] }
}

fn lit(text: &str) -> CliArg {
    CliArg::Literal(text.to_string())
}

fn handle(user_keys: Vec<PrivateKey>, validator_keys: ValidatorKeys) -> SuiNetworkHandle {
    SuiNetworkHandle::new(&SuiNetworkBuilder::default(), 9000, validator_keys, user_keys)
}

/// The coins that a plan transfers, each with its recipient, as the chain
/// would create them.
fn transferred(plan: &TransactionPlan) -> Vec<(Address, u64)> {
    let mut coins = Vec::new();
    for command in &plan.commands {
        if let BuilderCommand::TransferObjects { objects, recipient } = command {
            let to = match &plan.commands[*recipient] {
                BuilderCommand::Pure(address) => *address,
                other => panic!("recipient is not an address: {other:?}"),
            };
            for object in objects {
                match &plan.commands[*object] {
                    BuilderCommand::CoinWithBalance(amount) => coins.push((to, *amount)),
                    other => panic!("object is not a coin: {other:?}"),
                }
            }
        }
    }
    coins
}

#[test]
fn large_number_of_requests() {
    let myso = handle(vec![key(1)], ValidatorKeys::new());
    let recipient = Address::from_u8(0);

    let requests = vec![(recipient, 1_000_000_000u64); 500];
    let first = myso.fund(&requests);
    let second = myso.fund(&requests);
    assert_eq!(first.commands.len(), 1500);

    let mut coins = transferred(&first);
    coins.extend(transferred(&second));
    let owned: Vec<_> = coins.iter().filter(|(to, _)| *to == recipient).collect();
    assert_eq!(owned.len(), 1000);
    let total: u64 = owned.iter().map(|(_, amount)| *amount).sum();
    assert_eq!(total, 1000 * 1_000_000_000);
}

#[test]
fn zero_value_requests() {
    let myso = handle(vec![key(1)], ValidatorKeys::new());
    let recipient = Address::from_u8(0);
    let plan = myso.fund(&[(recipient, 0)]);
    assert_eq!(
        plan.commands,
        vec![
            BuilderCommand::Pure(recipient),
            BuilderCommand::CoinWithBalance(0),
            BuilderCommand::TransferObjects { objects: vec![1], recipient: 0 },
        ]
    );
    let coins = transferred(&plan);
    assert_eq!(coins.len(), 1);
    assert_eq!(coins[0], (recipient, 0));
}

#[test]
fn funding_one_address_makes_one_coin_of_that_value() {
    let myso = handle(vec![key(4), key(5)], ValidatorKeys::new());
    let plan = myso.fund(&[(Address::from_u8(7), 1_000_000)]);
    assert_eq!(plan.flow, Flow::Fund);
    assert_eq!(plan.signer, key(4));
    assert_eq!(plan.finality_timeout_secs, 10);
    assert_eq!(transferred(&plan), vec![(Address::from_u8(7), 1_000_000)]);
}

#[test]
fn funding_follows_the_order_of_the_requests() {
    let a = Address::from_u8(1);
    let b = Address::from_u8(2);
    let plan = funding_plan(key(0), &[(a, 5), (b, 6), (a, 7)]);
    assert_eq!(
        plan.commands,
        vec![
            BuilderCommand::Pure(a),
            BuilderCommand::CoinWithBalance(5),
            BuilderCommand::TransferObjects { objects: vec![1], recipient: 0 },
            BuilderCommand::Pure(b),
            BuilderCommand::CoinWithBalance(6),
            BuilderCommand::TransferObjects { objects: vec![4], recipient: 3 },
            BuilderCommand::Pure(a),
            BuilderCommand::CoinWithBalance(7),
            BuilderCommand::TransferObjects { objects: vec![7], recipient: 6 },
        ]
    );
    let to_a: u64 = transferred(&plan).iter().filter(|(to, _)| *to == a).map(|(_, v)| *v).sum();
    assert_eq!(to_a, 12);
}

#[test]
fn funding_nothing_is_an_empty_transaction() {
    let plan = funding_plan(key(0), &[]);
    assert!(plan.commands.is_empty());
    assert_eq!(plan.flow, Flow::Fund);
}

#[test]
fn upgrade_calls_the_system_package() {
    let myso = handle(vec![key(8)], ValidatorKeys::new());
    let plan = myso.upgrade_myso_system_state();
    assert_eq!(plan.flow, Flow::SystemStateUpgrade);
    assert_eq!(plan.signer, key(8));
    assert_eq!(plan.finality_timeout_secs, FINALITY_TIMEOUT_SECS);
    assert_eq!(
        plan.commands,
        vec![
            BuilderCommand::Object(Address::from_u8(5)),
            BuilderCommand::MoveCall {
                package: Address::from_u8(3),
                module: "myso_system".to_string(),
                function: "active_validator_addresses".to_string(),
                arguments: vec![0],
            },
        ]
    );
    assert_eq!(upgrade_plan(key(8)), plan);
    assert_eq!(READ_MASK, "*");
}

#[test]
fn execution_status_names_the_flow_that_failed() {
    assert_eq!(confirm_execution(Flow::Fund, true), Ok(()));
    assert_eq!(confirm_execution(Flow::SystemStateUpgrade, true), Ok(()));
    let e = confirm_execution(Flow::Fund, false).unwrap_err();
    assert_eq!(e, HarnessError::TransactionExecutionFailure(Flow::Fund));
    assert_eq!(e.message(), "fund failed");
    let e = confirm_execution(Flow::SystemStateUpgrade, false).unwrap_err();
    assert_eq!(e.message(), "system-state upgrade failed");
}

#[test]
fn validators_are_granted_in_address_order() {
    let mut validators = ValidatorKeys::new();
    validators.insert(Address::from_u8(9), key(9));
    validators.insert(Address::from_u8(3), key(3));
    let myso = handle(vec![key(1)], validators);
    assert_eq!(VALIDATOR_GRANT, 1_000_000_000_000_000);
    assert_eq!(
        myso.validator_grants(),
        vec![
            (Address::from_u8(3), 1_000_000_000_000_000),
            (Address::from_u8(9), 1_000_000_000_000_000),
        ]
    );
    assert!(handle(vec![key(1)], ValidatorKeys::new()).validator_grants().is_empty());
}

#[test]
fn handle_records_what_was_asked_for() {
    let builder = SuiNetworkBuilder::default().with_num_validators(4).with_epoch_duration_ms(5);
    let myso = SuiNetworkHandle::new(&builder, 65535, ValidatorKeys::new(), vec![key(2)]);
    assert_eq!(myso.rpc_url, "http://127.0.0.1:65535");
    assert_eq!(myso.num_validators, 4);
    assert_eq!(myso.epoch_duration_ms, 5);
    assert_eq!(myso.user_keys, vec![key(2)]);
    assert_eq!(myso.validator_keys.len(), 0);
}

#[test]
fn builder_defaults() {
    let builder = SuiNetworkBuilder::default();
    assert_eq!(builder.num_validators, 1);
    assert_eq!(builder.epoch_duration_ms, 60_000);
    assert!(builder.myso_binary_path.is_none());
    assert_eq!(DEFAULT_NUM_VALIDATORS, 1);
    assert_eq!(DEFAULT_EPOCH_DURATION_MS, 60_000);
}

#[test]
fn builder_setters_change_one_field_each() {
    let builder = SuiNetworkBuilder::default().with_num_validators(7);
    assert_eq!(builder.num_validators, 7);
    assert_eq!(builder.epoch_duration_ms, 60_000);
    let builder = builder.with_epoch_duration_ms(1);
    assert_eq!(builder.num_validators, 7);
    assert_eq!(builder.epoch_duration_ms, 1);
    assert!(builder.myso_binary_path.is_none());
    let builder = builder.with_binary(PathBuf::from("/opt/myso"));
    assert_eq!(builder.myso_binary_path, Some(PathBuf::from("/opt/myso")));
    assert_eq!(builder.num_validators, 7);
    assert_eq!(builder.epoch_duration_ms, 1);
}

#[test]
fn genesis_command_line() {
    let expected = vec![
        lit("genesis"),
        lit("--working-dir"),
        CliArg::WorkingDir,
        lit("--epoch-duration-ms"),
        lit("60000"),
        lit("--committee-size"),
        lit("1"),
        lit("--with-faucet"),
    ];
    assert_eq!(genesis_args(60_000, 1), expected);
    assert_eq!(SuiNetworkBuilder::default().generate_genesis(), expected);
    let args = SuiNetworkBuilder::default()
        .with_num_validators(12)
        .with_epoch_duration_ms(0)
        .generate_genesis();
    assert_eq!(args[4], lit("0"));
    assert_eq!(args[6], lit("12"));
}

#[test]
fn start_command_line() {
    let expected = vec![
        lit("start"),
        lit("--network.config"),
        CliArg::WorkingDir,
        lit("--fullnode-rpc-port"),
        lit("40123"),
    ];
    assert_eq!(start_args(40123), expected);
    assert_eq!(SuiNetworkBuilder::default().start_network(40123), expected);
}

#[test]
fn build_command_line() {
    let expected = vec![
        lit("move"),
        lit("--client.config"),
        CliArg::WorkingDirFile("client.yaml".to_string()),
        lit("-p"),
        CliArg::PackageDir,
        lit("build"),
        lit("-e"),
        lit("testnet"),
        lit("--dump-bytecode-as-base64"),
    ];
    assert_eq!(build_package_args(), expected);
    assert_eq!(handle(vec![], ValidatorKeys::new()).build_package_args(), expected);
}

#[test]
fn file_and_program_names() {
    assert_eq!(BINARY_ENV_VAR, "MYSO_BINARY");
    assert_eq!(BINARY_NAME, "myso");
    assert_eq!(LOOKUP_PROGRAM, "which");
    assert_eq!(NETWORK_CONFIG_FILE, "network.yaml");
    assert_eq!(CLIENT_CONFIG_FILE, "client.yaml");
    assert_eq!(STDOUT_FILE, "out.stdout");
    assert_eq!(STDERR_FILE, "out.stderr");
}

#[test]
fn header_names() {
    assert_eq!(X_SUI_CHAIN_ID, "x-myso-chain-id");
    assert_eq!(X_SUI_CHAIN, "x-myso-chain");
    assert_eq!(X_SUI_CHECKPOINT_HEIGHT, "x-myso-checkpoint-height");
    assert_eq!(X_SUI_LOWEST_AVAILABLE_CHECKPOINT, "x-myso-lowest-available-checkpoint");
    assert_eq!(
        X_SUI_LOWEST_AVAILABLE_CHECKPOINT_OBJECTS,
        "x-myso-lowest-available-checkpoint-objects"
    );
    assert_eq!(X_SUI_EPOCH, "x-myso-epoch");
    assert_eq!(X_SUI_TIMESTAMP_MS, "x-myso-timestamp-ms");
    assert_eq!(X_SUI_TIMESTAMP, "x-myso-timestamp");
}

#[test]
fn rpc_url_is_on_loopback() {
    assert_eq!(rpc_url(0), "http://127.0.0.1:0");
    assert_eq!(rpc_url(8080), "http://127.0.0.1:8080");
    assert_eq!(rpc_url(u16::MAX), "http://127.0.0.1:65535");
}

#[test]
fn genesis_and_spawn_failures() {
    assert_eq!(genesis_status(true), Ok(()));
    assert_eq!(genesis_status(false), Err(HarnessError::GenesisFailure));
    let e = spawn_failure("permission denied".to_string());
    assert_eq!(e.message(), "Failed to run `myso start`: permission denied");
}

#[test]
fn build_status_keeps_both_streams() {
    assert_eq!(build_status(true, b"{}".to_vec(), b"warn".to_vec()), Ok(b"{}".to_vec()));
    let e = build_status(false, b"out".to_vec(), b"error: x\n".to_vec()).unwrap_err();
    assert_eq!(
        e,
        HarnessError::BuildSubprocessFailure {
            stdout: b"out".to_vec(),
            stderr: b"error: x\n".to_vec(),
        }
    );
    assert_eq!(e.message(), "stdout: out\n\n stderr: error: x\\n");
}

#[test]
fn build_output_is_decoded() {
    let module_a = vec![0xa1u8, 0x1c, 0xeb, 0x0b, 6, 0, 0];
    let module_b = vec![1u8, 2, 3];
    let digest: Vec<u8> = (0..32).collect();
    let output = MoveBuildOutput {
        modules: vec![
            base64ct::Base64::encode_string(&module_a),
            base64ct::Base64::encode_string(&module_b),
        ],
        dependencies: vec![Address::from_u8(1), Address::from_u8(2)],
        digest: digest.clone(),
    };
    let mut bytes = [0u8; 32];
    bytes.copy_from_slice(&digest);
    let expected = (
        Publish {
            modules: vec![module_a, module_b],
            dependencies: vec![Address::from_u8(1), Address::from_u8(2)],
        },
        Digest { bytes },
    );
    assert_eq!(decode_build_output(output.clone()), Ok(expected.clone()));
    assert_eq!(handle(vec![], ValidatorKeys::new()).build_package(output), Ok(expected));
}

#[test]
fn build_output_without_modules() {
    let output = MoveBuildOutput { modules: vec![], dependencies: vec![], digest: vec![7; 32] };
    assert_eq!(
        decode_build_output(output),
        Ok((Publish { modules: vec![], dependencies: vec![] }, Digest { bytes: [7; 32] }))
    );
}

#[test]
fn build_output_with_a_bad_module() {
    let output = MoveBuildOutput {
        modules: vec!["AQID".to_string(), "AQI".to_string(), "?".to_string()],
        dependencies: vec![],
        digest: vec![0; 3],
    };
    assert_eq!(
        decode_build_output(output),
        Err(HarnessError::InvalidBuildOutput(PackageFault::Module { index: 1 }))
    );
    assert_eq!(decode_modules(&vec!["AQID".to_string()]), Ok(vec![vec![1, 2, 3]]));
}

#[test]
fn build_output_with_a_bad_digest() {
    let output = MoveBuildOutput {
        modules: vec!["AQID".to_string()],
        dependencies: vec![],
        digest: vec![0; 33],
    };
    assert_eq!(
        decode_build_output(output),
        Err(HarnessError::InvalidBuildOutput(PackageFault::Digest { len: 33 }))
    );
    assert_eq!(
        digest_from_bytes(&[]),
        Err(HarnessError::InvalidBuildOutput(PackageFault::Digest { len: 0 }))
    );
    assert_eq!(digest_from_bytes(&[9; 32]), Ok(Digest { bytes: [9; 32] }));
}

#[test]
fn port_is_used_as_soon_as_one_is_given() {
    assert_eq!(get_available_port(0, Some(40000)), PortDecision::Use(40000));
    assert_eq!(get_available_port(999, Some(1)), PortDecision::Use(1));
}

#[test]
fn port_allocation_retries_up_to_the_limit() {
    assert_eq!(MAX_PORT_RETRIES, 1000);
    assert_eq!(get_available_port(0, None), PortDecision::Retry);
    assert_eq!(get_available_port(998, None), PortDecision::Retry);
    assert_eq!(get_available_port(999, None), PortDecision::Exhausted);
    assert_eq!(get_available_port(1000, Some(5)), PortDecision::Exhausted);
    assert_eq!(get_available_port(u32::MAX, None), PortDecision::Exhausted);
    assert_eq!(
        port_exhaustion().message(),
        "Error: could not find an available port on localhost"
    );
}

#[test]
fn port_allocation_over_a_run_of_attempts() {
    assert_eq!(allocate_from(&[]), None);
    assert_eq!(allocate_from(&[None, None, Some(7), Some(8)]), Some(7));
    let mut attempts = vec![None; 999];
    attempts.push(Some(9));
    assert_eq!(allocate_from(&attempts), Some(9));
    let mut attempts = vec![None; 1000];
    attempts.push(Some(9));
    assert_eq!(allocate_from(&attempts), None);
}

#[test]
fn readiness_needs_more_than_five_checkpoints() {
    assert_eq!(READY_CHECKPOINT_HEIGHT, 5);
    let mut gate = ReadinessGate::new();
    assert_eq!(wait_for_ready(&mut gate, Some(0)), Ok(Readiness::Retry { after_secs: 1 }));
    assert_eq!(wait_for_ready(&mut gate, Some(5)), Ok(Readiness::Retry { after_secs: 1 }));
    assert_eq!(wait_for_ready(&mut gate, None), Ok(Readiness::Retry { after_secs: 1 }));
    assert!(!gate.done);
    assert_eq!(wait_for_ready(&mut gate, Some(6)), Ok(Readiness::Ready));
    assert!(gate.done);
    assert_eq!(gate.polls, 4);
    // Once open, it stays open.
    assert_eq!(wait_for_ready(&mut gate, None), Ok(Readiness::Ready));
    assert_eq!(gate.polls, 4);
}

#[test]
fn readiness_times_out_after_thirty_seconds() {
    assert_eq!(NETWORK_STARTUP_TIMEOUT_SECS, 30);
    assert_eq!(NETWORK_STARTUP_POLL_INTERVAL_SECS, 1);
    let mut gate = ReadinessGate::new();
    let mut slept = 0;
    let mut polls = 0;
    while !gate.expired() {
        polls += 1;
        match wait_for_ready(&mut gate, if polls % 2 == 0 { None } else { Some(5) }) {
            Ok(Readiness::Retry { after_secs }) => slept += after_secs,
            other => panic!("unexpected {other:?}"),
        }
    }
    assert_eq!(polls, 30);
    assert_eq!(slept, 30);
    let e = gate.timeout_error();
    assert_eq!(e, HarnessError::ReadinessTimeout { timeout_secs: 30 });
    assert_eq!(e.message(), "Network failed to start within 30s timeout");
    // Too late: an answer after the bound changes nothing.
    assert_eq!(wait_for_ready(&mut gate, Some(100)), Err(e));
    assert!(!gate.done);
}

#[test]
fn readiness_on_the_last_poll_still_counts() {
    let mut gate = ReadinessGate::new();
    for _ in 0..29 {
        assert_eq!(wait_for_ready(&mut gate, None), Ok(Readiness::Retry { after_secs: 1 }));
    }
    assert!(!gate.expired());
    assert_eq!(wait_for_ready(&mut gate, Some(6)), Ok(Readiness::Ready));
    assert!(!gate.expired());
}

#[test]
fn readiness_limits_can_be_chosen() {
    assert_eq!(ReadinessGate::with_limits(10, 0), None);
    let mut gate = ReadinessGate::with_limits(10, 3).unwrap();
    for _ in 0..3 {
        assert_eq!(wait_for_ready(&mut gate, None), Ok(Readiness::Retry { after_secs: 3 }));
    }
    assert!(gate.expired());
    assert_eq!(
        wait_for_ready(&mut gate, None).unwrap_err().message(),
        "Network failed to start within 10s timeout"
    );
    let gate = ReadinessGate::with_limits(2, 5).unwrap();
    assert!(gate.expired());
}

#[test]
fn binary_override_wins() {
    let lookup = LookupOutput { success: true, stdout: "/usr/bin/myso\n".to_string() };
    assert_eq!(
        find_myso_binary(Some("/custom/myso".to_string()), Some(lookup.clone())),
        Some("/custom/myso".to_string())
    );
    // The override is taken as it is, even empty or padded.
    assert_eq!(find_myso_binary(Some(" ".to_string()), None), Some(" ".to_string()));
    assert_eq!(find_myso_binary(Some(String::new()), Some(lookup)), Some(String::new()));
}

#[test]
fn binary_is_looked_up_on_the_search_path() {
    let lookup = LookupOutput { success: true, stdout: "/usr/bin/myso\n".to_string() };
    assert_eq!(find_myso_binary(None, Some(lookup)), Some("/usr/bin/myso".to_string()));
}

#[test]
fn binary_not_found() {
    assert_eq!(find_myso_binary(None, None), None);
    let failed = LookupOutput { success: false, stdout: "/usr/bin/myso\n".to_string() };
    assert_eq!(find_myso_binary(None, Some(failed)), None);
    let blank = LookupOutput { success: true, stdout: "\n".to_string() };
    assert_eq!(find_myso_binary(None, Some(blank)), None);
}

#[test]
fn availability_follows_the_locator() {
    let found = Some(LookupOutput { success: true, stdout: " /bin/myso ".to_string() });
    let blank = Some(LookupOutput { success: true, stdout: "  ".to_string() });
    let failed = Some(LookupOutput { success: false, stdout: "/bin/myso".to_string() });
    assert!(check_binary_available(&Some("x".to_string()), &None));
    assert!(check_binary_available(&None, &found));
    assert!(!check_binary_available(&None, &blank));
    assert!(!check_binary_available(&None, &failed));
    assert!(!check_binary_available(&None, &None));
}

#[test]
fn binary_path_is_resolved_once() {
    let mut cache = BinaryCache::new();
    assert!(!cache.is_resolved());
    assert_eq!(myso_binary(&mut cache, None, None), Err(HarnessError::BinaryNotFound));
    assert!(!cache.is_resolved());
    assert_eq!(myso_binary(&mut cache, Some("/a".to_string()), None), Ok("/a".to_string()));
    assert!(cache.is_resolved());
    // Later answers do not replace the first.
    assert_eq!(myso_binary(&mut cache, Some("/b".to_string()), None), Ok("/a".to_string()));
    assert_eq!(myso_binary(&mut cache, None, None), Ok("/a".to_string()));
    assert_eq!(cache.path, Some("/a".to_string()));
}

const STEPS: [Stage; 10] = [
    Stage::CheckBinary,
    Stage::CreateWorkDir,
    Stage::Genesis,
    Stage::LoadKeys,
    Stage::AllocatePort,
    Stage::SpawnNetwork,
    Stage::Connect,
    Stage::AwaitReady,
    Stage::UpgradeSystemState,
    Stage::FundValidators,
];

#[test]
fn bootstrap_takes_its_steps_in_order() {
    let mut bootstrap = SuiNetworkBuilder::default().build();
    assert_eq!(bootstrap.stage, Stage::CheckBinary);
    for next in &STEPS[1..] {
        assert_eq!(bootstrap.advance(true), BootstrapAction::Perform(*next));
        assert_eq!(bootstrap.stage, *next);
    }
    assert_eq!(bootstrap.advance(true), BootstrapAction::Finish);
    assert_eq!(bootstrap.stage, Stage::Done);
    assert_eq!(bootstrap.advance(false), BootstrapAction::Finish);
    assert_eq!(bootstrap.stage, Stage::Done);
}

#[test]
fn bootstrap_failure_releases_what_was_acquired() {
    for (at, stage) in STEPS.iter().enumerate() {
        let mut bootstrap = Bootstrap { stage: *stage };
        assert_eq!(
            bootstrap.advance(false),
            BootstrapAction::Abort { kill_process: at > 5, remove_dir: at > 1 },
            "failure at {stage:?}"
        );
        assert_eq!(bootstrap.stage, Stage::Failed);
        assert_eq!(
            bootstrap.advance(true),
            BootstrapAction::Abort { kill_process: false, remove_dir: false }
        );
        assert_eq!(bootstrap.stage, Stage::Failed);
    }
}

#[test]
fn bootstrap_kills_the_process_when_readiness_times_out() {
    let mut bootstrap = SuiNetworkBuilder::default().build();
    for _ in 0..7 {
        bootstrap.advance(true);
    }
    assert_eq!(bootstrap.stage, Stage::AwaitReady);
    assert_eq!(
        bootstrap.advance(false),
        BootstrapAction::Abort { kill_process: true, remove_dir: true }
    );
}

#[test]
fn big_int_is_read_from_decimal_text() {
    assert_eq!(BigInt::parse("0"), Some(BigInt(0)));
    assert_eq!(BigInt::parse("007"), Some(BigInt(7)));
    assert_eq!(BigInt::parse("+42"), Some(BigInt(42)));
    assert_eq!(BigInt::parse("18446744073709551615"), Some(BigInt(u64::MAX)));
}

#[test]
fn big_int_rejects_what_is_not_a_number() {
    for text in ["", "+", "-1", " 1", "1 ", "1_000", "0x10", "١٢", "++1", "1+", "1.0"] {
        assert_eq!(BigInt::parse(text), None, "{text:?}");
        assert!(text.parse::<u64>().is_err());
    }
}

#[test]
fn big_int_rejects_what_does_not_fit() {
    assert_eq!(BigInt::parse("18446744073709551616"), None);
    assert_eq!(BigInt::parse("99999999999999999999999"), None);
    assert_eq!(BigInt::parse("184467440737095516150"), None);
}
