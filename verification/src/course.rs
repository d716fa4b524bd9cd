//! What a single event leads to, in terms of the simulation that it comes to and the one that goes on.
//!
//! Each law takes a simulation, an event and a step that the event may lead to.

use vstd::prelude::*;

use crate::rules;
use crate::rules::{BlockHeader, SimEnv, SimulateError};
use crate::simulation::{Action, Event, Failure, SimState, Simulation, Step};

verus! {

/// A failure of the node is the answer, whatever work is pending.
pub proof fn failure_is_the_answer<B, E>(simulation: Simulation<B>, error: E, step: Step<B, E>)
    requires
        call_ensures(Simulation::<B>::step::<E>, (simulation, Event::Failed(error)), step),
    ensures
        step == Step::<B, E>::Return(Err(Failure::Api(error))),
{
}

/// An event of another kind than the pending work calls for leaves the simulation where it is.
pub proof fn event_out_of_turn_changes_nothing<B, E>(
    simulation: Simulation<B>,
    event: Event<B, E>,
    step: Step<B, E>,
)
    requires
        call_ensures(Simulation::<B>::step::<E>, (simulation, event), step),
        !(event is Failed),
        !(simulation@.pending is RecoverBlock && event is BlockRecovered),
        !(simulation@.pending is OpenState && event is StateOpened),
        !(simulation@.pending is PrepareEnv && event is EnvPrepared),
        !(simulation@.pending is ApplyOverrides && event is OverridesApplied),
        !(simulation@.pending is Execute && event is BlockSimulated),
    ensures
        step matches Step::Continue(same) && same@ == simulation@,
{
}

/// The canonical block is what the simulation starts from: its state is opened next. Where there is no
/// such block, the answer is that it was not found.
pub proof fn canonical_block_is_opened<B, E>(
    simulation: Simulation<B>,
    number: u64,
    recovered: Option<BlockHeader>,
    step: Step<B, E>,
)
    requires
        call_ensures(
            Simulation::<B>::step::<E>,
            (simulation, Event::BlockRecovered(recovered)),
            step,
        ),
        simulation@.pending == (Action::RecoverBlock { number }),
    ensures
        recovered is None ==> step == Step::<B, E>::Return(
            Err(Failure::Refused(SimulateError::HeaderNotFound(number))),
        ),
        recovered matches Some(parent) ==> {
            &&& step matches Step::Continue(next)
            &&& next@ == (SimState {
                pending: Action::OpenState { number, parent },
                ..simulation@
            })
        },
{
}

/// A block is begun on top of `parent`, the canonical block for the first one, exactly where the number
/// and the timestamp that it asks for, if any, exceed the parent's: its environment comes next.
/// Otherwise the request is refused, for the number before the timestamp.
pub proof fn later_block_is_begun<B, E>(
    simulation: Simulation<B>,
    number: u64,
    parent: BlockHeader,
    step: Step<B, E>,
)
    requires
        call_ensures(Simulation::<B>::step::<E>, (simulation, Event::StateOpened), step),
        simulation@.pending == (Action::OpenState { number, parent }),
        simulation@.blocks.len() < simulation@.payload.block_state_calls@.len(),
    ensures
        ({
            let position = simulation@.blocks.len();
            let overrides = simulation@.payload.block_state_calls@[position as int].block_overrides;
            let asked_number = if overrides is Some {
                overrides->0.number
            } else {
                None
            };
            let asked_time = if overrides is Some {
                overrides->0.time
            } else {
                None
            };
            let number_exceeds = asked_number matches Some(n) ==> n@ > parent.number
                && parent.number < u64::MAX;
            let time_exceeds = asked_time matches Some(t) ==> t > parent.timestamp;
            &&& number_exceeds && time_exceeds ==> {
                &&& step matches Step::Continue(next)
                &&& next@.pending matches Action::PrepareEnv { block, parent: on }
                &&& block == position
                &&& on == parent
                &&& next@ == (SimState { pending: next@.pending, ..simulation@ })
            }
            &&& !number_exceeds ==> {
                &&& step matches Step::Return(Err(Failure::Refused(refused)))
                &&& refused matches SimulateError::BlockNumberInvalid { got, parent: before }
                &&& got == if asked_number->0@ <= u64::MAX {
                    asked_number->0@
                } else {
                    u64::MAX as nat
                }
                &&& before == parent.number
            }
            &&& number_exceeds && !time_exceeds ==> step == Step::<B, E>::Return(
                Err(
                    Failure::Refused(
                        SimulateError::BlockTimestampInvalid {
                            got: asked_time->0,
                            parent: parent.timestamp,
                        },
                    ),
                ),
            )
        }),
{
    let requested = simulation@.payload.block_state_calls;
    assert(requested.len() == requested@.len());
}

/// A block that is built joins the blocks built before it, at the end. The last one completes the
/// answer. After any other, the next block of the request is begun on top of it, exactly where the
/// number and the timestamp that the next one asks for, if any, exceed those of the block built.
pub proof fn built_block_is_kept_and_built_upon<B, E>(
    simulation: Simulation<B>,
    header: BlockHeader,
    built: B,
    step: Step<B, E>,
)
    requires
        call_ensures(
            Simulation::<B>::step::<E>,
            (simulation, Event::BlockSimulated { header, block: built }),
            step,
        ),
        simulation@.pending is Execute,
        simulation@.blocks.len() < simulation@.payload.block_state_calls@.len(),
    ensures
        simulation@.blocks.len() + 1 == simulation@.payload.block_state_calls@.len() ==> {
            &&& step matches Step::Return(Ok(blocks))
            &&& blocks@ == simulation@.blocks.push(built)
        },
        simulation@.blocks.len() + 1 < simulation@.payload.block_state_calls@.len() ==> {
            let position = simulation@.blocks.len() + 1;
            let overrides = simulation@.payload.block_state_calls@[position as int].block_overrides;
            let asked_number = if overrides is Some {
                overrides->0.number
            } else {
                None
            };
            let asked_time = if overrides is Some {
                overrides->0.time
            } else {
                None
            };
            let number_exceeds = asked_number matches Some(n) ==> n@ > header.number
                && header.number < u64::MAX;
            let time_exceeds = asked_time matches Some(t) ==> t > header.timestamp;
            &&& number_exceeds && time_exceeds ==> {
                &&& step matches Step::Continue(next)
                &&& next@.pending matches Action::PrepareEnv { block, parent: on }
                &&& block == position
                &&& on == header
                &&& next@ == (SimState {
                    pending: next@.pending,
                    blocks: simulation@.blocks.push(built),
                    ..simulation@
                })
            }
            &&& !number_exceeds ==> {
                &&& step matches Step::Return(Err(Failure::Refused(refused)))
                &&& refused matches SimulateError::BlockNumberInvalid { got, parent: before }
                &&& got == if asked_number->0@ <= u64::MAX {
                    asked_number->0@
                } else {
                    u64::MAX as nat
                }
                &&& before == header.number
            }
            &&& number_exceeds && !time_exceeds ==> step == Step::<B, E>::Return(
                Err(
                    Failure::Refused(
                        SimulateError::BlockTimestampInvalid {
                            got: asked_time->0,
                            parent: header.timestamp,
                        },
                    ),
                ),
            )
        },
{
    let requested = simulation@.payload.block_state_calls;
    assert(requested.len() == requested@.len());
}

/// A block is refused for the gas limit that it asks for exactly where that exceeds both the limit in
/// the environment reported and what the node grants to a call. Otherwise the environment to put into
/// effect is the one reported, set up for a simulation: at every position of the request it keeps what
/// the node reported where validation is asked for, and lifts the checks where it is not.
pub proof fn reported_environment_is_set_up<B, E>(
    simulation: Simulation<B>,
    position: usize,
    parent: BlockHeader,
    reported: SimEnv,
    step: Step<B, E>,
)
    requires
        call_ensures(Simulation::<B>::step::<E>, (simulation, Event::EnvPrepared(reported)), step),
        simulation@.pending == (Action::PrepareEnv { block: position, parent }),
        position == simulation@.blocks.len(),
    ensures
        ({
            let requested = simulation@.payload.block_state_calls@[position as int];
            let asked_gas = if requested.block_overrides is Some {
                requested.block_overrides->0.gas_limit
            } else {
                None
            };
            if asked_gas is Some && asked_gas->0 > reported.gas_limit && asked_gas->0
                > simulation@.call_gas_limit {
                step == Step::<B, E>::Return(
                    Err(Failure::Refused(SimulateError::GasLimitReached)),
                )
            } else {
                &&& step matches Step::Continue(next)
                &&& next@ == (SimState { pending: next@.pending, ..simulation@ })
                &&& next@.pending matches Action::ApplyOverrides {
                    block,
                    parent: on,
                    env,
                    block_overrides,
                    state_overrides,
                }
                &&& block == position
                &&& on == parent
                &&& block_overrides == requested.block_overrides is Some
                &&& state_overrides == requested.state_overrides
                &&& env.chain_id == reported.chain_id
                &&& env.gas_limit == reported.gas_limit
                &&& env.disable_eip3607
                &&& env.prevrandao matches Some(random)
                &&& forall|i: int| 0 <= i < 32 ==> random.0@[i] == 0
                &&& if simulation@.payload.validation {
                    &&& env.disable_nonce_check == reported.disable_nonce_check
                    &&& env.disable_base_fee == reported.disable_base_fee
                    &&& env.tx_gas_limit_cap == reported.tx_gas_limit_cap
                    &&& env.basefee == reported.basefee
                } else {
                    &&& env.disable_nonce_check
                    &&& env.disable_base_fee
                    &&& env.tx_gas_limit_cap == Some(u64::MAX)
                    &&& env.basefee == 0
                }
            }
        }),
{
}

/// Once the overrides are applied, a block is refused exactly where its calls specify more gas than it
/// has, by the limit asked for or else its own. Otherwise it is executed as the request says: the
/// gas limit, the base fee and the randomness are those asked for, and the rest of the environment is
/// the one that was put into effect.
pub proof fn overridden_block_is_executed<B, E>(
    simulation: Simulation<B>,
    position: usize,
    parent: BlockHeader,
    configured: SimEnv,
    block_overrides: bool,
    state_overrides: bool,
    step: Step<B, E>,
)
    requires
        call_ensures(Simulation::<B>::step::<E>, (simulation, Event::OverridesApplied), step),
        simulation@.pending == (Action::ApplyOverrides {
            block: position,
            parent,
            env: configured,
            block_overrides,
            state_overrides,
        }),
        position == simulation@.blocks.len(),
    ensures
        ({
            let requested = simulation@.payload.block_state_calls@[position as int];
            let overrides = requested.block_overrides;
            let gas_limit = if overrides is Some && overrides->0.gas_limit is Some {
                overrides->0.gas_limit->0
            } else {
                configured.gas_limit
            };
            if rules::specified_gas_of(requested.calls@) > gas_limit {
                step == Step::<B, E>::Return(
                    Err(Failure::Refused(SimulateError::BlockGasLimitExceeded)),
                )
            } else {
                &&& step matches Step::Continue(next)
                &&& next@ == (SimState { pending: next@.pending, ..simulation@ })
                &&& next@.pending matches Action::Execute {
                    block,
                    parent: on,
                    env,
                    default_gas_limit,
                    trace_transfers,
                    precompile_overrides,
                    return_full_transactions,
                }
                &&& block == position
                &&& on == parent
                &&& trace_transfers == simulation@.payload.trace_transfers
                &&& precompile_overrides == requested.state_overrides
                &&& return_full_transactions == simulation@.payload.return_full_transactions
                &&& env.gas_limit == gas_limit
                &&& env.chain_id == configured.chain_id
                &&& env.disable_eip3607 == configured.disable_eip3607
                &&& env.disable_nonce_check == configured.disable_nonce_check
                &&& env.disable_base_fee == configured.disable_base_fee
                &&& env.tx_gas_limit_cap == configured.tx_gas_limit_cap
                &&& env.prevrandao == if overrides is Some && overrides->0.random is Some {
                    overrides->0.random
                } else {
                    configured.prevrandao
                }
                &&& if overrides is Some && overrides->0.base_fee is Some {
                    let fee = overrides->0.base_fee->0;
                    &&& fee@ <= u64::MAX ==> env.basefee == fee@
                    &&& fee@ > u64::MAX ==> env.basefee == u64::MAX
                } else {
                    env.basefee == configured.basefee
                }
            }
        }),
{
}

/// The calls that specify no gas get, when their block is executed, what the rules divide among them of
/// the gas that the block has, under the node's cap.
pub proof fn executed_calls_get_their_share<B, E>(
    simulation: Simulation<B>,
    position: usize,
    env: SimEnv,
    gas: Result<u64, SimulateError>,
    step: Step<B, E>,
    next: Simulation<B>,
)
    requires
        call_ensures(Simulation::<B>::step::<E>, (simulation, Event::OverridesApplied), step),
        step == Step::<B, E>::Continue(next),
        simulation@.pending is ApplyOverrides,
        next@.pending is Execute,
        position == simulation@.blocks.len(),
        env == next@.pending->Execute_env,
        call_ensures(
            rules::default_gas_limit,
            (
                &simulation@.payload.block_state_calls@[position as int].calls,
                env.gas_limit,
                simulation@.call_gas_limit,
            ),
            gas,
        ),
    ensures
        gas == Ok::<u64, SimulateError>(next@.pending->default_gas_limit),
{
    let calls = simulation@.payload.block_state_calls@[position as int].calls@;
    rules::gas_share_is_bounded(calls, env.gas_limit, simulation@.call_gas_limit);
}

/// At every position of the request, a block is executed in the environment that the node reported for
/// it. Where validation is asked for, the two agree on the chain, on what is checked of nonces, of
/// fees and of the gas of a transaction, and on the base fee and the gas limit unless those are
/// overridden. Where it is not, the chain and, unless overridden, the gas limit are those reported.
pub proof fn blocks_execute_in_the_reported_environment<B, E>(
    simulation: Simulation<B>,
    position: usize,
    parent: BlockHeader,
    reported: SimEnv,
    prepared: Simulation<B>,
    executing: Simulation<B>,
)
    requires
        simulation@.pending == (Action::PrepareEnv { block: position, parent }),
        position == simulation@.blocks.len(),
        call_ensures(
            Simulation::<B>::step::<E>,
            (simulation, Event::EnvPrepared(reported)),
            Step::Continue(prepared),
        ),
        call_ensures(
            Simulation::<B>::step::<E>,
            (prepared, Event::OverridesApplied),
            Step::Continue(executing),
        ),
    ensures
        executing@ == (SimState { pending: executing@.pending, ..simulation@ }),
        executing@.pending is Execute,
        executing@.pending->Execute_block == position,
        executing@.pending->Execute_parent == parent,
        ({
            let overrides = simulation@.payload.block_state_calls@[position as int].block_overrides;
            let env = executing@.pending->Execute_env;
            &&& env.chain_id == reported.chain_id
            &&& env.disable_eip3607
            &&& overrides is None || overrides->0.gas_limit is None ==> env.gas_limit
                == reported.gas_limit
            &&& simulation@.payload.validation ==> {
                &&& env.disable_nonce_check == reported.disable_nonce_check
                &&& env.disable_base_fee == reported.disable_base_fee
                &&& env.tx_gas_limit_cap == reported.tx_gas_limit_cap
                &&& overrides is None || overrides->0.base_fee is None ==> env.basefee
                    == reported.basefee
            }
            &&& !simulation@.payload.validation ==> {
                &&& env.disable_nonce_check
                &&& env.disable_base_fee
                &&& env.tx_gas_limit_cap == Some(u64::MAX)
                &&& overrides is None || overrides->0.base_fee is None ==> env.basefee == 0
            }
        }),
{
}

} // verus!
