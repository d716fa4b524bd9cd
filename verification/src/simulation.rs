//! The course of a simulation: which work on the node comes next, and what its outcome leads to.
//!
//! A [`Simulation`] names one [`Action`] at a time. Its driver performs the action on the node and
//! reports an [`Event`]; the simulation then names the next action or returns the answer to the
//! request.

use revm::database::BundleState;
use std::sync::Arc;
use vstd::prelude::*;

use crate::bundle::share_bundle;
use crate::overlay::PendingBundleOverlay;
use crate::overrides;
use crate::overrides::overridden_env;
use crate::pending::PendingBlocks;
use crate::rules;
use crate::rules::{
    check_block_order, check_gas_limit, default_gas_limit, simulation_env, BlockHeader, SimBlock,
    SimEnv, SimulateError, SimulatePayload,
};
use crate::types::BlockNumber;

verus! {

/// What the node grants to a request.
#[derive(Debug, Clone, Copy, PartialEq, Eq, Structural)]
pub struct SimulateLimits {
    /// The largest number of blocks in one request.
    pub max_simulate_blocks: u64,
    /// The largest gas limit of a call; zero where calls are not capped.
    pub call_gas_limit: u64,
}

/// Work on the node.
#[derive(Debug, Clone, Copy, PartialEq, Eq)]
pub enum Action {
    /// Look up the canonical block that the simulation starts from.
    RecoverBlock {
        /// The block's number.
        number: BlockNumber,
    },
    /// Open the state after the canonical block.
    OpenState {
        /// The block's number.
        number: BlockNumber,
        /// The block's header.
        parent: BlockHeader,
    },
    /// Make the execution environment of the block that follows `parent`.
    PrepareEnv {
        /// The position of the block in the request.
        block: usize,
        /// The header of the block before.
        parent: BlockHeader,
    },
    /// Put `env` into effect, then apply the overrides of the block to the node. The gas limit, the base
    /// fee and the randomness that this leads to come back with [`Action::Execute`]; whatever else is
    /// overridden concerns the node alone.
    ApplyOverrides {
        /// The position of the block in the request.
        block: usize,
        /// The header of the block before.
        parent: BlockHeader,
        /// The environment before the overrides.
        env: SimEnv,
        /// Whether there are block overrides to apply.
        block_overrides: bool,
        /// Whether there are state overrides to apply.
        state_overrides: bool,
    },
    /// Execute the calls of the block and build the block on top of `parent`.
    Execute {
        /// The position of the block in the request.
        block: usize,
        /// The header of the block before.
        parent: BlockHeader,
        /// The environment to execute in, overrides included.
        env: SimEnv,
        /// The gas limit of calls that specify none.
        default_gas_limit: u64,
        /// Whether transfers are recorded as logs.
        trace_transfers: bool,
        /// Whether precompiles are overridden before the calls execute.
        precompile_overrides: bool,
        /// Whether the built block carries full transactions.
        return_full_transactions: bool,
    },
}

/// The outcome of work on the node. `B` is a built block, `E` an error of the node.
#[derive(Debug)]
pub enum Event<B, E> {
    /// The canonical block was looked up.
    BlockRecovered(Option<BlockHeader>),
    /// The state was opened.
    StateOpened,
    /// The environment of the next block was made.
    EnvPrepared(SimEnv),
    /// The overrides were applied.
    OverridesApplied,
    /// The calls were executed and the block was built.
    BlockSimulated {
        /// The header of the block.
        header: BlockHeader,
        /// The block.
        block: B,
    },
    /// The work failed.
    Failed(E),
}

/// Why a simulation has no result.
#[derive(Debug, PartialEq, Eq)]
pub enum Failure<E> {
    /// A rule refuses it.
    Refused(SimulateError),
    /// Work on the node failed.
    Api(E),
}

/// A simulation under way.
#[derive(Debug)]
pub struct Simulation<B> {
    payload: SimulatePayload,
    bundle: Arc<BundleState>,
    base: BlockNumber,
    call_gas_limit: u64,
    blocks: Vec<B>,
    pending: Action,
}

/// What a simulation under way stands for.
#[verifier::ext_equal]
pub struct SimState<B> {
    /// The request.
    pub payload: SimulatePayload,
    /// The diff that the simulation runs on top of.
    pub bundle: BundleState,
    /// The number of the canonical block beneath the diff.
    pub base: BlockNumber,
    /// The largest gas limit of a call; zero where calls are not capped.
    pub call_gas_limit: u64,
    /// The blocks built so far, in the order of the request.
    pub blocks: Seq<B>,
    /// The work that the simulation waits for.
    pub pending: Action,
}

/// What an event leads to.
#[derive(Debug)]
pub enum Step<B, E> {
    /// The simulation goes on.
    Continue(Simulation<B>),
    /// The request is answered.
    Return(Result<Vec<B>, Failure<E>>),
}

/// What a [`Step`] stands for.
pub enum Outcome<B, E> {
    /// The simulation goes on.
    Continue(SimState<B>),
    /// The request is answered.
    Return(Result<Seq<B>, Failure<E>>),
}

impl<B> View for Simulation<B> {
    type V = SimState<B>;

    closed spec fn view(&self) -> SimState<B> {
        SimState {
            payload: self.payload,
            bundle: *self.bundle,
            base: self.base,
            call_gas_limit: self.call_gas_limit,
            blocks: self.blocks@,
            pending: self.pending,
        }
    }
}

impl<B, E> View for Step<B, E> {
    type V = Outcome<B, E>;

    open spec fn view(&self) -> Outcome<B, E> {
        match *self {
            Step::Continue(simulation) => Outcome::Continue(simulation@),
            Step::Return(Ok(blocks)) => Outcome::Return(Ok(blocks@)),
            Step::Return(Err(failure)) => Outcome::Return(Err(failure)),
        }
    }
}

impl<B> SimState<B> {
    /// The block of the request that the simulation is at.
    pub open spec fn current(self) -> SimBlock {
        self.payload.block_state_calls@[self.blocks.len() as int]
    }

    /// What holds throughout a simulation: there is a block left to simulate, and the pending work is
    /// what the rules allow for it.
    pub open spec fn valid(self) -> bool {
        &&& self.blocks.len() < self.payload.block_state_calls@.len()
        &&& match self.pending {
            Action::RecoverBlock { number } => number == self.base && self.blocks.len() == 0,
            Action::OpenState { number, .. } => number == self.base && self.blocks.len() == 0,
            Action::PrepareEnv { block, parent } => {
                &&& block == self.blocks.len()
                &&& rules::order_violation(self.current().block_overrides, parent) is None
            },
            Action::ApplyOverrides { block, parent, env, block_overrides, state_overrides } => {
                &&& block == self.blocks.len()
                &&& rules::order_violation(self.current().block_overrides, parent) is None
                &&& env == rules::simulation_env_of(env, self.payload.validation)
                &&& !rules::is_uncapped(
                    self.current().block_overrides,
                    env.gas_limit,
                    self.call_gas_limit,
                )
                &&& block_overrides == self.current().block_overrides is Some
                &&& state_overrides == self.current().state_overrides
            },
            Action::Execute {
                block,
                parent,
                env,
                default_gas_limit,
                trace_transfers,
                precompile_overrides,
                return_full_transactions,
            } => {
                &&& block == self.blocks.len()
                &&& rules::order_violation(self.current().block_overrides, parent) is None
                &&& env == overrides::overridden_env_of(
                    rules::simulation_env_of(env, self.payload.validation),
                    self.current().block_overrides,
                )
                &&& rules::specified_gas_of(self.current().calls@) <= env.gas_limit
                &&& default_gas_limit == rules::gas_share(
                    self.current().calls@,
                    env.gas_limit,
                    self.call_gas_limit,
                )
                &&& trace_transfers == self.payload.trace_transfers
                &&& precompile_overrides == self.current().state_overrides
                &&& return_full_transactions == self.payload.return_full_transactions
            },
        }
    }

    /// Whether an event reports on the pending work.
    pub open spec fn awaits<E>(self, event: Event<B, E>) -> bool {
        match event {
            Event::BlockRecovered(_) => self.pending is RecoverBlock,
            Event::StateOpened => self.pending is OpenState,
            Event::EnvPrepared(_) => self.pending is PrepareEnv,
            Event::OverridesApplied => self.pending is ApplyOverrides,
            Event::BlockSimulated { .. } => self.pending is Execute,
            Event::Failed(_) => true,
        }
    }

    /// The current block is begun on top of `parent`: it is refused where it may not follow the parent,
    /// and its environment comes next otherwise.
    pub open spec fn begun<E>(self, parent: BlockHeader) -> Outcome<B, E> {
        match rules::order_violation(self.current().block_overrides, parent) {
            Some(broken) => Outcome::Return(Err(Failure::Refused(broken))),
            None => Outcome::Continue(
                SimState {
                    pending: Action::PrepareEnv { block: self.blocks.len() as usize, parent },
                    ..self
                },
            ),
        }
    }

    /// The environment of the current block, which follows `parent`, is known: an uncapped gas limit
    /// is refused, and the overrides come next otherwise.
    pub open spec fn env_prepared<E>(self, parent: BlockHeader, next: SimEnv) -> Outcome<B, E> {
        if rules::is_uncapped(self.current().block_overrides, next.gas_limit, self.call_gas_limit) {
            Outcome::Return(Err(Failure::Refused(SimulateError::GasLimitReached)))
        } else {
            Outcome::Continue(
                SimState {
                    pending: Action::ApplyOverrides {
                        block: self.blocks.len() as usize,
                        parent,
                        env: rules::simulation_env_of(next, self.payload.validation),
                        block_overrides: self.current().block_overrides is Some,
                        state_overrides: self.current().state_overrides,
                    },
                    ..self
                },
            )
        }
    }

    /// The overrides of the current block, which follows `parent`, take effect on `configured`: calls
    /// that specify more gas than the block then has are refused, and the execution comes next
    /// otherwise.
    pub open spec fn overrides_applied<E>(
        self,
        parent: BlockHeader,
        configured: SimEnv,
    ) -> Outcome<B, E> {
        let env = overrides::overridden_env_of(configured, self.current().block_overrides);
        if rules::specified_gas_of(self.current().calls@) > env.gas_limit {
            Outcome::Return(Err(Failure::Refused(SimulateError::BlockGasLimitExceeded)))
        } else {
            Outcome::Continue(
                SimState {
                    pending: Action::Execute {
                        block: self.blocks.len() as usize,
                        parent,
                        env,
                        default_gas_limit: rules::gas_share(
                            self.current().calls@,
                            env.gas_limit,
                            self.call_gas_limit,
                        ) as u64,
                        trace_transfers: self.payload.trace_transfers,
                        precompile_overrides: self.current().state_overrides,
                        return_full_transactions: self.payload.return_full_transactions,
                    },
                    ..self
                },
            )
        }
    }

    /// The current block is built: it joins the results, which answer the request where it was the
    /// last block; otherwise the next one is begun on top of it.
    pub open spec fn block_simulated<E>(self, header: BlockHeader, block: B) -> Outcome<B, E> {
        let blocks = self.blocks.push(block);
        if blocks.len() == self.payload.block_state_calls@.len() {
            Outcome::Return(Ok(blocks))
        } else {
            SimState { blocks, ..self }.begun(header)
        }
    }

    /// What an event leads to. A failure of the node answers the request at once; an event that does
    /// not report on the pending work changes nothing.
    pub open spec fn after<E>(self, event: Event<B, E>) -> Outcome<B, E> {
        match (self.pending, event) {
            (_, Event::Failed(error)) => Outcome::Return(Err(Failure::Api(error))),
            (Action::RecoverBlock { number }, Event::BlockRecovered(None)) => Outcome::Return(
                Err(Failure::Refused(SimulateError::HeaderNotFound(number))),
            ),
            (Action::RecoverBlock { number }, Event::BlockRecovered(Some(parent))) => {
                Outcome::Continue(SimState { pending: Action::OpenState { number, parent }, ..self })
            },
            (Action::OpenState { parent, .. }, Event::StateOpened) => self.begun(parent),
            (Action::PrepareEnv { parent, .. }, Event::EnvPrepared(next)) => self.env_prepared(
                parent,
                next,
            ),
            (Action::ApplyOverrides { parent, env, .. }, Event::OverridesApplied) => {
                self.overrides_applied(parent, env)
            },
            (Action::Execute { .. }, Event::BlockSimulated { header, block }) => self.block_simulated(
                header,
                block,
            ),
            _ => Outcome::Continue(self),
        }
    }
}

/// The work that begins the block at position `block` on top of `parent`.
fn begin_block(payload: &SimulatePayload, block: usize, parent: BlockHeader) -> (work: Result<
    Action,
    SimulateError,
>)
    requires
        block < payload.block_state_calls@.len(),
    ensures
        work == (match rules::order_violation(
            payload.block_state_calls@[block as int].block_overrides,
            parent,
        ) {
            Some(broken) => Err(broken),
            None => Ok(Action::PrepareEnv { block, parent }),
        }),
{
    match check_block_order(&payload.block_state_calls[block].block_overrides, parent) {
        Ok(()) => Ok(Action::PrepareEnv { block, parent }),
        Err(broken) => Err(broken),
    }
}

impl<B> Simulation<B> {
    #[verifier::type_invariant]
    spec fn well_formed(self) -> bool {
        self@.valid()
    }

    /// The work that the simulation waits for.
    pub fn action(&self) -> (action: Action)
        ensures
            action == self@.pending,
    {
        self.pending
    }

    /// The state to simulate on: the pending diff over `state`, the canonical state.
    pub fn overlay<P>(&self, state: P) -> (overlay: PendingBundleOverlay<P>)
        ensures
            overlay.canonical() == state,
            overlay.pending() == self@.bundle,
    {
        PendingBundleOverlay::new(state, share_bundle(&self.bundle))
    }

    /// Takes in the outcome of the pending work.
    pub fn step<E>(self, event: Event<B, E>) -> (step: Step<B, E>)
        ensures
            step@ == self@.after(event),
    {
        proof {
            use_type_invariant(&self);
        }
        let block: usize = self.blocks.len();
        match (self.pending, event) {
            (_, Event::Failed(error)) => Step::Return(Err(Failure::Api(error))),
            (Action::RecoverBlock { number }, Event::BlockRecovered(None)) => Step::Return(
                Err(Failure::Refused(SimulateError::HeaderNotFound(number))),
            ),
            (Action::RecoverBlock { number }, Event::BlockRecovered(Some(parent))) => {
                Step::Continue(Simulation { pending: Action::OpenState { number, parent }, ..self })
            },
            (Action::OpenState { parent, .. }, Event::StateOpened) => {
                match begin_block(&self.payload, block, parent) {
                    Ok(pending) => Step::Continue(Simulation { pending, ..self }),
                    Err(broken) => Step::Return(Err(Failure::Refused(broken))),
                }
            },
            (Action::PrepareEnv { parent, .. }, Event::EnvPrepared(next)) => {
                let current = &self.payload.block_state_calls[block];
                match check_gas_limit(&current.block_overrides, next.gas_limit, self.call_gas_limit) {
                    Ok(()) => {
                        let pending = Action::ApplyOverrides {
                            block,
                            parent,
                            env: simulation_env(next, self.payload.validation),
                            block_overrides: current.block_overrides.is_some(),
                            state_overrides: current.state_overrides,
                        };
                        Step::Continue(Simulation { pending, ..self })
                    },
                    Err(refused) => Step::Return(Err(Failure::Refused(refused))),
                }
            },
            (Action::ApplyOverrides { parent, env: configured, .. }, Event::OverridesApplied) => {
                let current = &self.payload.block_state_calls[block];
                let env = overridden_env(configured, &current.block_overrides);
                match default_gas_limit(&current.calls, env.gas_limit, self.call_gas_limit) {
                    Ok(default_gas_limit) => {
                        let pending = Action::Execute {
                            block,
                            parent,
                            env,
                            default_gas_limit,
                            trace_transfers: self.payload.trace_transfers,
                            precompile_overrides: current.state_overrides,
                            return_full_transactions: self.payload.return_full_transactions,
                        };
                        Step::Continue(Simulation { pending, ..self })
                    },
                    Err(refused) => Step::Return(Err(Failure::Refused(refused))),
                }
            },
            (Action::Execute { .. }, Event::BlockSimulated { header, block: built }) => {
                let Simulation { payload, bundle, base, call_gas_limit, blocks, .. } = self;
                let mut blocks = blocks;
                blocks.push(built);
                if blocks.len() == payload.block_state_calls.len() {
                    Step::Return(Ok(blocks))
                } else {
                    match begin_block(&payload, blocks.len(), header) {
                        Ok(pending) => Step::Continue(
                            Simulation { payload, bundle, base, call_gas_limit, blocks, pending },
                        ),
                        Err(broken) => Step::Return(Err(Failure::Refused(broken))),
                    }
                }
            },
            _ => Step::Continue(self),
        }
    }
}

/// The diff that a request asks for: the one at the given coordinates where both are given, the latest
/// otherwise. A snapshot that is not retained is not found.
pub open spec fn requested_bundle(
    pending: PendingBlocks,
    block_number: Option<u64>,
    block_index: Option<u64>,
) -> Option<BundleState> {
    match (block_number, block_index) {
        (Some(number), Some(index)) => pending.snapshot_at(number, index),
        _ => Some(pending.latest()),
    }
}

/// Why a request is refused before anything is simulated, if it is.
pub open spec fn refusal(
    limits: SimulateLimits,
    pending: PendingBlocks,
    opts: SimulatePayload,
    block_number: Option<u64>,
    block_index: Option<u64>,
) -> Option<SimulateError> {
    if opts.block_state_calls@.len() > limits.max_simulate_blocks as usize {
        Some(SimulateError::TooManyBlocks)
    } else if opts.block_state_calls@.len() == 0 {
        Some(SimulateError::NoCalls)
    } else if requested_bundle(pending, block_number, block_index) is None {
        Some(SimulateError::HeaderNotFound(block_number->0))
    } else {
        None
    }
}

/// Calls of the `eth` namespace that see the effects of the pending block.
#[derive(Debug)]
pub struct OverlayCall;

impl OverlayCall {
    /// Starts the simulation of `opts` on top of a pending diff.
    ///
    /// The diff is the one captured at the flashblock `block_index` of `block_number` where both are
    /// given, and the latest otherwise. Every snapshot is a diff over the same canonical block, so
    /// that block is the base of the simulation whichever snapshot is asked for.
    pub fn simulate_v1<B>(
        limits: SimulateLimits,
        pending: &PendingBlocks,
        opts: SimulatePayload,
        block_number: Option<u64>,
        block_index: Option<u64>,
    ) -> (simulation: Result<Simulation<B>, SimulateError>)
        ensures
            refusal(limits, *pending, opts, block_number, block_index) matches Some(refused)
                ==> simulation == Err::<Simulation<B>, SimulateError>(refused),
            refusal(limits, *pending, opts, block_number, block_index) is None ==> simulation is Ok
                && simulation->Ok_0@ == (SimState {
                payload: opts,
                bundle: requested_bundle(*pending, block_number, block_index)->0,
                base: pending.parent_number(),
                call_gas_limit: limits.call_gas_limit,
                blocks: Seq::<B>::empty(),
                pending: Action::RecoverBlock { number: pending.parent_number() },
            }),
    {
        if opts.block_state_calls.len() > limits.max_simulate_blocks as usize {
            return Err(SimulateError::TooManyBlocks);
        }
        if opts.block_state_calls.len() == 0 {
            return Err(SimulateError::NoCalls);
        }
        let bundle = match (block_number, block_index) {
            (Some(number), Some(index)) => {
                match pending.get_historical_bundle_state_at(number, index) {
                    Some(bundle) => bundle,
                    None => return Err(SimulateError::HeaderNotFound(number)),
                }
            },
            _ => pending.latest_bundle_state(),
        };
        let base: BlockNumber = pending.canonical_block_number();
        Ok(
            Simulation {
                payload: opts,
                bundle,
                base,
                call_gas_limit: limits.call_gas_limit,
                blocks: Vec::new(),
                pending: Action::RecoverBlock { number: base },
            },
        )
    }
}

} // verus!
