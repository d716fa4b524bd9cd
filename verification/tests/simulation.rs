use std::sync::Arc;

use flashblocks_overlay::overrides::overridden_env;
use flashblocks_overlay::rules::{
    check_block_order, check_gas_limit, default_gas_limit, simulation_env, specified_gas,
};
use flashblocks_overlay::{
    Action, BlockHeader, BlockOverrides, Call, Event, EvmStateProvider, Failure, OverlayCall,
    PendingBlocks, SimBlock, SimEnv, SimulateError, SimulateLimits, SimulatePayload, Simulation,
    Step, B256, U256,
};
use flashblocks_overlay::{Account, Address, BlockNumber, StorageKey, StorageValue};
use revm::bytecode::Bytecode;
use revm::database::{AccountStatus, BundleAccount, BundleState};

const LIMITS: SimulateLimits = SimulateLimits { max_simulate_blocks: 3, call_gas_limit: 50 };

fn block_hash(number: u64) -> B256 {
    B256([number as u8; 32])
}

/// The header of a block whose parent has the number before its own.
fn header(number: u64, timestamp: u64) -> BlockHeader {
    BlockHeader {
        hash: block_hash(number),
        parent_hash: block_hash(number.wrapping_sub(1)),
        number,
        timestamp,
    }
}

fn overrides(number: Option<U256>, time: Option<u64>, gas_limit: Option<u64>) -> BlockOverrides {
    BlockOverrides { number, time, gas_limit, base_fee: None, random: None }
}

fn numbered(number: u64) -> Option<BlockOverrides> {
    Some(overrides(Some(U256::from(number)), None, None))
}

fn sim_block(block_overrides: Option<BlockOverrides>, calls: Vec<Option<u64>>) -> SimBlock {
    SimBlock {
        block_overrides,
        state_overrides: false,
        calls: calls.into_iter().map(|gas_limit| Call { gas_limit }).collect(),
    }
}

fn payload(blocks: Vec<SimBlock>) -> SimulatePayload {
    SimulatePayload {
        block_state_calls: blocks,
        trace_transfers: false,
        validation: false,
        return_full_transactions: false,
    }
}

fn calls(gas: Vec<Option<u64>>) -> Vec<Call> {
    gas.into_iter().map(|gas_limit| Call { gas_limit }).collect()
}

fn pending() -> PendingBlocks {
    PendingBlocks::new(100, 101, 0, Arc::new(BundleState::default()))
}

fn next_env() -> SimEnv {
    SimEnv {
        chain_id: 8453,
        disable_eip3607: false,
        disable_nonce_check: false,
        disable_base_fee: false,
        tx_gas_limit_cap: None,
        gas_limit: 1000,
        basefee: 7,
        prevrandao: Some(B256([5u8; 32])),
    }
}

fn start(opts: SimulatePayload) -> Simulation<String> {
    OverlayCall::simulate_v1(LIMITS, &pending(), opts, None, None).unwrap()
}

fn go_on(simulation: Simulation<String>, event: Event<String, String>) -> Simulation<String> {
    match simulation.step(event) {
        Step::Continue(next) => next,
        Step::Return(answer) => panic!("answered: {:?}", answer),
    }
}

fn answered(
    simulation: Simulation<String>,
    event: Event<String, String>,
) -> Result<Vec<String>, Failure<String>> {
    match simulation.step(event) {
        Step::Continue(next) => panic!("goes on: {:?}", next),
        Step::Return(answer) => answer,
    }
}

/// A simulation whose first block is about to be prepared on top of block 100.
fn opened(opts: SimulatePayload) -> Simulation<String> {
    let simulation = go_on(start(opts), Event::BlockRecovered(Some(header(100, 1000))));
    go_on(simulation, Event::StateOpened)
}

/// Drives a simulation on a node whose blocks have the gas limit 1000 unless overridden.
fn drive(opts: SimulatePayload) -> (Result<Vec<String>, Failure<String>>, Vec<Action>) {
    let blocks: Vec<Option<BlockOverrides>> =
        opts.block_state_calls.iter().map(|block| block.block_overrides).collect();
    let mut simulation = start(opts);
    let mut actions: Vec<Action> = Vec::new();
    let mut parent = header(100, 1000);
    loop {
        let action = simulation.action();
        actions.push(action);
        let event = match action {
            Action::RecoverBlock { number } => {
                assert_eq!(number, 100);
                Event::BlockRecovered(Some(parent))
            }
            Action::OpenState { .. } => Event::StateOpened,
            Action::PrepareEnv { parent: given, .. } => {
                assert_eq!(given, parent);
                Event::EnvPrepared(next_env())
            }
            Action::ApplyOverrides { parent: given, .. } => {
                assert_eq!(given, parent);
                Event::OverridesApplied
            }
            Action::Execute { block, parent: given, default_gas_limit, .. } => {
                assert_eq!(given, parent);
                let o = blocks[block].unwrap_or(overrides(None, None, None));
                let number = o.number.map_or(parent.number + 1, |n| n.l0);
                parent = BlockHeader {
                    parent_hash: given.hash,
                    ..header(number, o.time.unwrap_or(parent.timestamp + 2))
                };
                let block = format!("{}:{}", parent.number, default_gas_limit);
                Event::BlockSimulated { header: parent, block }
            }
        };
        simulation = match simulation.step(event) {
            Step::Continue(next) => next,
            Step::Return(answer) => return (answer, actions),
        };
    }
}

#[test]
fn too_many_blocks_are_refused() {
    let blocks = vec![
        sim_block(None, vec![]),
        sim_block(None, vec![]),
        sim_block(None, vec![]),
        sim_block(None, vec![]),
    ];
    let refused: Result<Simulation<String>, SimulateError> =
        OverlayCall::simulate_v1(LIMITS, &pending(), payload(blocks), None, None);
    let error = refused.unwrap_err();
    assert_eq!(error, SimulateError::TooManyBlocks);
    assert_eq!(error.invalid_params(), Some("too many blocks."));
}

#[test]
fn empty_request_is_refused() {
    let refused: Result<Simulation<String>, SimulateError> =
        OverlayCall::simulate_v1(LIMITS, &pending(), payload(vec![]), None, None);
    let error = refused.unwrap_err();
    assert_eq!(error, SimulateError::NoCalls);
    assert_eq!(error.invalid_params(), Some("calls are empty."));
    // So it is where the node simulates no blocks at all.
    let limits = SimulateLimits { max_simulate_blocks: 0, ..LIMITS };
    let refused: Result<Simulation<String>, SimulateError> =
        OverlayCall::simulate_v1(limits, &pending(), payload(vec![]), None, None);
    assert_eq!(refused.unwrap_err(), SimulateError::NoCalls);
}

#[test]
fn as_many_blocks_as_granted_are_accepted() {
    let blocks =
        vec![sim_block(None, vec![]), sim_block(None, vec![]), sim_block(None, vec![])];
    let (answer, _) = drive(payload(blocks));
    assert_eq!(answer.unwrap().len(), 3);
}

#[test]
fn other_errors_are_not_about_parameters() {
    assert_eq!(SimulateError::HeaderNotFound(3).invalid_params(), None);
    assert_eq!(SimulateError::GasLimitReached.invalid_params(), None);
    assert_eq!(SimulateError::BlockGasLimitExceeded.invalid_params(), None);
}

#[derive(Debug)]
struct NoState;

impl EvmStateProvider for NoState {
    type Error = String;

    fn basic_account(&self, _address: &Address) -> Result<Option<Account>, String> {
        Ok(None)
    }

    fn block_hash(&self, _number: BlockNumber) -> Result<Option<B256>, String> {
        Ok(None)
    }

    fn bytecode_by_hash(&self, _code_hash: &B256) -> Result<Option<Bytecode>, String> {
        Ok(None)
    }

    fn storage(
        &self,
        _account: Address,
        _storage_key: StorageKey,
    ) -> Result<Option<StorageValue>, String> {
        Ok(None)
    }
}

fn bundle_with_nonce(nonce: u64) -> Arc<BundleState> {
    let info = revm::state::AccountInfo { nonce, ..Default::default() };
    let mut bundle = BundleState::default();
    bundle.state.insert(
        alloy_primitives::Address::ZERO,
        BundleAccount::new(None, Some(info), Default::default(), AccountStatus::Changed),
    );
    Arc::new(bundle)
}

#[test]
fn requested_snapshot_is_simulated_on() {
    let pending = PendingBlocks::new(100, 101, 0, bundle_with_nonce(1))
        .with_snapshot(101, 1, bundle_with_nonce(2));
    for (number, index, nonce) in [
        (Some(101), Some(0), 1u64),
        (Some(101), Some(1), 2),
        (None, None, 2),
        (Some(101), None, 2),
        (None, Some(0), 2),
    ] {
        let simulation: Simulation<String> = OverlayCall::simulate_v1(
            LIMITS,
            &pending,
            payload(vec![sim_block(None, vec![])]),
            number,
            index,
        )
        .unwrap();
        // The base is the canonical block whichever snapshot is asked for.
        assert_eq!(simulation.action(), Action::RecoverBlock { number: 100 });
        let overlay = simulation.overlay(NoState);
        let account = overlay.basic_account(&Address([0u8; 20])).unwrap().unwrap();
        assert_eq!(account.nonce, nonce);
    }
}

#[test]
fn missing_snapshot_is_not_found() {
    let refused: Result<Simulation<String>, SimulateError> = OverlayCall::simulate_v1(
        LIMITS,
        &pending(),
        payload(vec![sim_block(None, vec![])]),
        Some(101),
        Some(1),
    );
    assert_eq!(refused.unwrap_err(), SimulateError::HeaderNotFound(101));
}

#[test]
fn missing_canonical_block_is_not_found() {
    let simulation = start(payload(vec![sim_block(None, vec![])]));
    assert_eq!(
        answered(simulation, Event::BlockRecovered(None)),
        Err(Failure::Refused(SimulateError::HeaderNotFound(100)))
    );
}

#[test]
fn block_number_must_exceed_the_parent() {
    let parent = header(100, 1000);
    assert_eq!(
        check_block_order(&numbered(100), parent),
        Err(SimulateError::BlockNumberInvalid { got: 100, parent: 100 })
    );
    assert_eq!(
        check_block_order(&numbered(99), parent),
        Err(SimulateError::BlockNumberInvalid { got: 99, parent: 100 })
    );
    assert_eq!(check_block_order(&numbered(101), parent), Ok(()));
    assert_eq!(check_block_order(&None, parent), Ok(()));
}

#[test]
fn huge_block_number_saturates() {
    let huge = Some(overrides(Some(U256 { l0: 0, l1: 1, l2: 0, l3: 0 }), None, None));
    assert_eq!(check_block_order(&huge, header(u64::MAX - 1, 0)), Ok(()));
    assert_eq!(
        check_block_order(&huge, header(u64::MAX, 0)),
        Err(SimulateError::BlockNumberInvalid { got: u64::MAX, parent: u64::MAX })
    );
}

#[test]
fn block_timestamp_must_exceed_the_parent() {
    let parent = header(100, 1000);
    let at = |time: u64| Some(overrides(None, Some(time), None));
    assert_eq!(
        check_block_order(&at(1000), parent),
        Err(SimulateError::BlockTimestampInvalid { got: 1000, parent: 1000 })
    );
    assert_eq!(check_block_order(&at(1001), parent), Ok(()));
    // The number is checked first.
    assert_eq!(
        check_block_order(&Some(overrides(Some(U256::from(1)), Some(1), None)), parent),
        Err(SimulateError::BlockNumberInvalid { got: 1, parent: 100 })
    );
}

#[test]
fn environment_without_validation() {
    let env = simulation_env(next_env(), false);
    assert_eq!(
        env,
        SimEnv {
            chain_id: 8453,
            disable_eip3607: true,
            disable_nonce_check: true,
            disable_base_fee: true,
            tx_gas_limit_cap: Some(u64::MAX),
            gas_limit: 1000,
            basefee: 0,
            prevrandao: Some(B256([0u8; 32])),
        }
    );
}

#[test]
fn environment_with_validation() {
    let env = simulation_env(next_env(), true);
    assert_eq!(
        env,
        SimEnv {
            disable_eip3607: true,
            prevrandao: Some(B256([0u8; 32])),
            ..next_env()
        }
    );
}

#[test]
fn uncapped_gas_limit_is_refused() {
    let asks = |gas: u64| Some(overrides(None, None, Some(gas)));
    assert_eq!(check_gas_limit(&asks(1001), 1000, 50), Err(SimulateError::GasLimitReached));
    assert_eq!(check_gas_limit(&asks(1000), 1000, 50), Ok(()));
    assert_eq!(check_gas_limit(&asks(60), 50, 60), Ok(()));
    assert_eq!(check_gas_limit(&asks(61), 50, 60), Err(SimulateError::GasLimitReached));
    assert_eq!(check_gas_limit(&asks(1), 0, 0), Err(SimulateError::GasLimitReached));
    assert_eq!(check_gas_limit(&None, 0, 0), Ok(()));

    let simulation = opened(payload(vec![sim_block(asks(1001), vec![])]));
    assert_eq!(
        answered(simulation, Event::EnvPrepared(next_env())),
        Err(Failure::Refused(SimulateError::GasLimitReached))
    );
}

#[test]
fn gas_left_is_shared_equally() {
    let given = calls(vec![Some(100), None, Some(50), None, None]);
    // (1000 - 150) / 3
    assert_eq!(default_gas_limit(&given, 1000, 0), Ok(283));
    // The cap of the node applies.
    assert_eq!(default_gas_limit(&given, 1000, 200), Ok(200));
    assert_eq!(default_gas_limit(&given, 1000, 283), Ok(283));
    // Nothing is left.
    assert_eq!(default_gas_limit(&given, 150, 0), Ok(0));
    assert_eq!(
        default_gas_limit(&given, 149, 0),
        Err(SimulateError::BlockGasLimitExceeded)
    );
    // Every call has a limit.
    assert_eq!(default_gas_limit(&calls(vec![Some(10)]), 1000, 0), Ok(0));
    assert_eq!(default_gas_limit(&calls(vec![]), 1000, 0), Ok(0));
}

#[test]
fn shared_gas_stays_within_the_block() {
    let given = calls(vec![Some(7), None, None, None]);
    for limit in 7..40u64 {
        let share = default_gas_limit(&given, limit, 0).unwrap();
        assert!(7 + 3 * share <= limit);
        assert!(7 + 3 * (share + 1) > limit);
    }
}

#[test]
fn specified_gas_is_added_up() {
    assert_eq!(specified_gas(&calls(vec![Some(1), None, Some(2)])), Some(3));
    assert_eq!(specified_gas(&calls(vec![])), Some(0));
    assert_eq!(specified_gas(&calls(vec![Some(u64::MAX), None])), Some(u64::MAX));
    assert_eq!(specified_gas(&calls(vec![Some(u64::MAX), Some(1)])), None);
}

#[test]
fn blocks_are_simulated_in_order() {
    let blocks = vec![
        sim_block(None, vec![Some(990), None]),
        sim_block(numbered(110), vec![None]),
        sim_block(Some(overrides(None, Some(5000), Some(20))), vec![None, None]),
    ];
    let (answer, actions) = drive(payload(blocks));
    // 10 gas is left in the first block, the cap of 50 applies in the second, the third has 20.
    assert_eq!(
        answer,
        Ok(vec!["101:10".to_string(), "110:50".to_string(), "111:10".to_string()])
    );
    assert_eq!(actions.len(), 2 + 3 * 3);
    assert_eq!(actions[0], Action::RecoverBlock { number: 100 });
    assert_eq!(actions[1], Action::OpenState { number: 100, parent: header(100, 1000) });
    assert_eq!(actions[5], Action::PrepareEnv { block: 1, parent: header(101, 1002) });
}

#[test]
fn blocks_are_chained() {
    let blocks = vec![
        sim_block(None, vec![]),
        sim_block(numbered(110), vec![]),
        sim_block(None, vec![]),
    ];
    let (answer, actions) = drive(payload(blocks));
    assert_eq!(answer.unwrap().len(), 3);
    let parents: Vec<(usize, BlockHeader)> = actions
        .iter()
        .filter_map(|action| match action {
            Action::Execute { block, parent, .. } => Some((*block, *parent)),
            _ => None,
        })
        .collect();
    let second = header(101, 1002);
    let third = BlockHeader { parent_hash: block_hash(101), ..header(110, 1004) };
    assert_eq!(parents, vec![(0, header(100, 1000)), (1, second), (2, third)]);
    assert_eq!(second.parent_hash, block_hash(100));
    // One state is opened for all of them.
    let opened = actions.iter().filter(|action| matches!(action, Action::OpenState { .. })).count();
    assert_eq!(opened, 1);
}

#[test]
fn gas_beyond_all_blocks_is_refused() {
    let given = calls(vec![Some(u64::MAX), Some(1), None]);
    assert_eq!(
        default_gas_limit(&given, u64::MAX, 0),
        Err(SimulateError::BlockGasLimitExceeded)
    );
    let block = sim_block(None, vec![Some(u64::MAX), Some(1)]);
    let (answer, _) = drive(payload(vec![block]));
    assert_eq!(answer, Err(Failure::Refused(SimulateError::BlockGasLimitExceeded)));
}

#[test]
fn narrowing_keeps_what_fits() {
    assert_eq!(U256::from(7).to_u64(), Some(7));
    assert_eq!(U256::from(u64::MAX).to_u64(), Some(u64::MAX));
    assert_eq!(U256 { l0: 7, l1: 1, l2: 0, l3: 0 }.to_u64(), None);
    assert_eq!(U256 { l0: 7, l1: 0, l2: 1, l3: 0 }.to_u64(), None);
    assert_eq!(U256 { l0: 7, l1: 0, l2: 0, l3: 1 }.to_u64(), None);
}

#[test]
fn later_block_out_of_order_is_refused() {
    let blocks = vec![sim_block(numbered(110), vec![]), sim_block(numbered(110), vec![])];
    let (answer, _) = drive(payload(blocks));
    assert_eq!(
        answer,
        Err(Failure::Refused(SimulateError::BlockNumberInvalid { got: 110, parent: 110 }))
    );
    let later = Some(overrides(None, Some(2000), None));
    let blocks = vec![sim_block(later, vec![]), sim_block(later, vec![])];
    let (answer, _) = drive(payload(blocks));
    assert_eq!(
        answer,
        Err(Failure::Refused(SimulateError::BlockTimestampInvalid { got: 2000, parent: 2000 }))
    );
}

#[test]
fn calls_beyond_the_block_gas_are_refused() {
    let (answer, actions) = drive(payload(vec![sim_block(None, vec![Some(600), Some(401)])]));
    assert_eq!(answer, Err(Failure::Refused(SimulateError::BlockGasLimitExceeded)));
    // Nothing was executed.
    assert!(!actions.iter().any(|action| matches!(action, Action::Execute { .. })));
}

#[test]
fn actions_carry_the_request() {
    let mut block = sim_block(numbered(200), vec![None]);
    block.state_overrides = true;
    let opts = SimulatePayload {
        block_state_calls: vec![block],
        trace_transfers: true,
        validation: true,
        return_full_transactions: true,
    };
    let simulation = go_on(opened(opts), Event::EnvPrepared(next_env()));
    assert_eq!(
        simulation.action(),
        Action::ApplyOverrides {
            block: 0,
            parent: header(100, 1000),
            env: simulation_env(next_env(), true),
            block_overrides: true,
            state_overrides: true,
        }
    );
    let simulation = go_on(simulation, Event::OverridesApplied);
    assert_eq!(
        simulation.action(),
        Action::Execute {
            block: 0,
            parent: header(100, 1000),
            env: simulation_env(next_env(), true),
            default_gas_limit: 50,
            trace_transfers: true,
            precompile_overrides: true,
            return_full_transactions: true,
        }
    );
}

fn asking(
    gas_limit: Option<u64>,
    base_fee: Option<U256>,
    random: Option<B256>,
) -> Option<BlockOverrides> {
    Some(BlockOverrides { number: None, time: None, gas_limit, base_fee, random })
}

#[test]
fn overrides_take_effect_one_by_one() {
    let env = next_env();
    assert_eq!(overridden_env(env, &None), env);
    assert_eq!(overridden_env(env, &asking(None, None, None)), env);
    assert_eq!(
        overridden_env(env, &asking(Some(30), None, None)),
        SimEnv { gas_limit: 30, ..env }
    );
    assert_eq!(
        overridden_env(env, &asking(None, Some(U256::from(9)), None)),
        SimEnv { basefee: 9, ..env }
    );
    let random = B256([6u8; 32]);
    assert_eq!(
        overridden_env(env, &asking(None, None, Some(random))),
        SimEnv { prevrandao: Some(random), ..env }
    );
    let unset = SimEnv { prevrandao: None, ..env };
    assert_eq!(overridden_env(unset, &asking(Some(1000), None, None)), unset);
}

#[test]
fn overrides_take_effect_together_and_once() {
    let mut bytes = [0u8; 32];
    bytes[0] = 1;
    bytes[31] = 2;
    let asked = asking(Some(0), Some(U256::from(0)), Some(B256(bytes)));
    let once = overridden_env(next_env(), &asked);
    assert_eq!(
        once,
        SimEnv { gas_limit: 0, basefee: 0, prevrandao: Some(B256(bytes)), ..next_env() }
    );
    assert_eq!(overridden_env(once, &asked), once);
}

#[test]
fn huge_base_fee_saturates() {
    for huge in [
        U256 { l0: 5, l1: 1, l2: 0, l3: 0 },
        U256 { l0: 5, l1: 0, l2: 1, l3: 0 },
        U256 { l0: 5, l1: 0, l2: 0, l3: 1 },
    ] {
        let env = overridden_env(next_env(), &asking(None, Some(huge), None));
        assert_eq!(env.basefee, u64::MAX);
    }
    let env = overridden_env(next_env(), &asking(None, Some(U256::from(u64::MAX)), None));
    assert_eq!(env.basefee, u64::MAX);
}

#[test]
fn number_and_time_do_not_touch_the_environment() {
    let asked = Some(overrides(Some(U256::from(7)), Some(8), None));
    assert_eq!(overridden_env(next_env(), &asked), next_env());
}

fn executed_env(opts: SimulatePayload) -> SimEnv {
    let simulation = go_on(opened(opts), Event::EnvPrepared(next_env()));
    match go_on(simulation, Event::OverridesApplied).action() {
        Action::Execute { env, .. } => env,
        other => panic!("asks for {:?}", other),
    }
}

#[test]
fn blocks_execute_in_the_overridden_environment() {
    let random = B256([9u8; 32]);
    let asked = asking(Some(20), Some(U256::from(3)), Some(random));
    let configured = simulation_env(next_env(), false);
    assert_eq!(executed_env(payload(vec![sim_block(None, vec![])])), configured);
    assert_eq!(
        executed_env(payload(vec![sim_block(asked, vec![])])),
        SimEnv { gas_limit: 20, basefee: 3, prevrandao: Some(random), ..configured }
    );
    let validated = SimulatePayload { validation: true, ..payload(vec![sim_block(asked, vec![])]) };
    assert_eq!(
        executed_env(validated),
        SimEnv {
            disable_eip3607: true,
            gas_limit: 20,
            basefee: 3,
            prevrandao: Some(random),
            ..next_env()
        }
    );
    // Without an override the randomness is zero, and the base fee is the next block's own.
    let validated = SimulatePayload { validation: true, ..payload(vec![sim_block(None, vec![])]) };
    let env = executed_env(validated);
    assert_eq!(env.prevrandao, Some(B256([0u8; 32])));
    assert_eq!(env.basefee, 7);
}

#[test]
fn overridden_gas_limit_bounds_the_calls() {
    let block = sim_block(asking(Some(20), None, None), vec![Some(15), Some(6)]);
    let (answer, _) = drive(payload(vec![block]));
    assert_eq!(answer, Err(Failure::Refused(SimulateError::BlockGasLimitExceeded)));
    let block = sim_block(asking(Some(20), None, None), vec![Some(15), None, None]);
    let (answer, _) = drive(payload(vec![block]));
    assert_eq!(answer, Ok(vec!["101:2".to_string()]));
}

#[test]
fn executed_calls_stay_below_both_limits() {
    // Blocks of 10 gas, on a node that grants 50 to a call.
    let small = SimEnv { gas_limit: 10, ..next_env() };
    for gas in 0..60u64 {
        let block = sim_block(asking(Some(gas), None, None), vec![None, None, None]);
        let simulation = opened(payload(vec![block]));
        if gas > 50 {
            assert_eq!(
                answered(simulation, Event::EnvPrepared(small)),
                Err(Failure::Refused(SimulateError::GasLimitReached))
            );
            continue;
        }
        let simulation = go_on(simulation, Event::EnvPrepared(small));
        match go_on(simulation, Event::OverridesApplied).action() {
            Action::Execute { env, default_gas_limit, .. } => {
                assert_eq!(env.gas_limit, gas);
                assert_eq!(default_gas_limit, gas / 3);
            }
            other => panic!("asks for {:?}", other),
        }
    }
}

#[test]
fn node_failure_is_the_answer() {
    let failed = || Event::Failed("down".to_string());
    let expected: Result<Vec<String>, Failure<String>> = Err(Failure::Api("down".to_string()));
    let request = || payload(vec![sim_block(None, vec![])]);
    assert_eq!(answered(start(request()), failed()), expected);
    let simulation = opened(request());
    assert_eq!(answered(simulation, failed()), expected);
    let simulation = go_on(opened(request()), Event::EnvPrepared(next_env()));
    assert_eq!(answered(simulation, failed()), expected);
    let simulation = go_on(opened(request()), Event::EnvPrepared(next_env()));
    let simulation = go_on(simulation, Event::OverridesApplied);
    assert_eq!(answered(simulation, failed()), expected);
}

#[test]
fn stray_event_changes_nothing() {
    let simulation = start(payload(vec![sim_block(None, vec![])]));
    let simulation = go_on(simulation, Event::StateOpened);
    assert_eq!(simulation.action(), Action::RecoverBlock { number: 100 });
    let simulation = go_on(simulation, Event::OverridesApplied);
    assert_eq!(simulation.action(), Action::RecoverBlock { number: 100 });
    let simulation = go_on(simulation, Event::BlockRecovered(Some(header(100, 1000))));
    let stray = Event::BlockSimulated { header: header(7, 7), block: "stray".to_string() };
    let simulation = go_on(simulation, stray);
    assert_eq!(
        simulation.action(),
        Action::OpenState { number: 100, parent: header(100, 1000) }
    );
}
