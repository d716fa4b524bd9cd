//! What holds of a simulation from its start to its answer.

use vstd::prelude::*;

use crate::overrides;
use crate::rules;
use crate::rules::{BlockHeader, SimEnv};
use crate::simulation::{Action, Event, Failure, Outcome, SimState};
use crate::types::B256;

verus! {

/// One block of a simulation: the work that was asked for and what was built.
pub struct Execution<B> {
    /// The position in the request of the block to execute.
    pub position: usize,
    /// The header of the block that it was to be built on.
    pub parent: BlockHeader,
    /// The header of the block built.
    pub header: BlockHeader,
    /// The block built.
    pub block: B,
}

impl<B> SimState<B> {
    /// The answer that a sequence of events leads to, if it leads to one.
    pub open spec fn answer<E>(self, events: Seq<Event<B, E>>) -> Option<Result<Seq<B>, Failure<E>>>
        decreases events.len(),
    {
        if events.len() == 0 {
            None
        } else {
            match self.after(events.first()) {
                Outcome::Return(answer) => Some(answer),
                Outcome::Continue(next) => next.answer(events.drop_first()),
            }
        }
    }

    /// Whether each of the events reports on the work that is pending when it comes, and none comes
    /// after the answer.
    pub open spec fn driven_by<E>(self, events: Seq<Event<B, E>>) -> bool
        decreases events.len(),
    {
        events.len() == 0 || {
            &&& self.awaits(events.first())
            &&& match self.after(events.first()) {
                Outcome::Return(_) => events.len() == 1,
                Outcome::Continue(next) => next.driven_by(events.drop_first()),
            }
        }
    }

    /// How much work is left at most before the answer.
    pub open spec fn work_left(self) -> int {
        let blocks = 3 * (self.payload.block_state_calls@.len() - self.blocks.len());
        match self.pending {
            Action::RecoverBlock { .. } => blocks + 2,
            Action::OpenState { .. } => blocks + 1,
            Action::PrepareEnv { .. } => blocks,
            Action::ApplyOverrides { .. } => blocks - 1,
            Action::Execute { .. } => blocks - 2,
        }
    }

    /// The headers that the current block and those after it are simulated on top of, and then the
    /// header of the last block.
    pub open spec fn parents<E>(self, events: Seq<Event<B, E>>) -> Seq<BlockHeader> {
        match self.pending {
            Action::RecoverBlock { .. } => headers_in(events),
            Action::OpenState { parent, .. } => seq![parent] + headers_in(events),
            Action::PrepareEnv { parent, .. } => seq![parent] + headers_in(events),
            Action::ApplyOverrides { parent, .. } => seq![parent] + headers_in(events),
            Action::Execute { parent, .. } => seq![parent] + headers_in(events),
        }
    }

    /// The blocks that are executed in the course of the events.
    pub open spec fn executions<E>(self, events: Seq<Event<B, E>>) -> Seq<Execution<B>>
        decreases events.len(),
    {
        if events.len() == 0 {
            Seq::empty()
        } else {
            (match (self.pending, events.first()) {
                (
                    Action::Execute { block: position, parent, .. },
                    Event::BlockSimulated { header, block },
                ) => seq![Execution { position, parent, header, block }],
                _ => Seq::empty(),
            }) + match self.after(events.first()) {
                Outcome::Return(_) => Seq::empty(),
                Outcome::Continue(next) => next.executions(events.drop_first()),
            }
        }
    }
}

/// The blocks that the events report, in order.
pub open spec fn blocks_in<B, E>(events: Seq<Event<B, E>>) -> Seq<B>
    decreases events.len(),
{
    if events.len() == 0 {
        Seq::empty()
    } else {
        (match events.first() {
            Event::BlockSimulated { block, .. } => seq![block],
            _ => Seq::empty(),
        }) + blocks_in(events.drop_first())
    }
}

/// The headers that the events report, in order: the canonical block's and the simulated blocks'.
pub open spec fn headers_in<B, E>(events: Seq<Event<B, E>>) -> Seq<BlockHeader>
    decreases events.len(),
{
    if events.len() == 0 {
        Seq::empty()
    } else {
        (match events.first() {
            Event::BlockRecovered(Some(header)) => seq![header],
            Event::BlockSimulated { header, .. } => seq![header],
            _ => Seq::empty(),
        }) + headers_in(events.drop_first())
    }
}

/// How often the events report that a state was opened.
pub open spec fn openings_in<B, E>(events: Seq<Event<B, E>>) -> nat
    decreases events.len(),
{
    if events.len() == 0 {
        0
    } else {
        openings_in(events.drop_first()) + if events.first() is StateOpened {
            1nat
        } else {
            0
        }
    }
}

/// A simulation that goes on stays valid, and its request, its diff and its base stay the same.
pub proof fn simulation_stays_valid<B, E>(state: SimState<B>, event: Event<B, E>, next: SimState<B>)
    requires
        state.valid(),
        state.after(event) == Outcome::<B, E>::Continue(next),
    ensures
        next.valid(),
        next.payload == state.payload,
        next.bundle == state.bundle,
        next.base == state.base,
        next.call_gas_limit == state.call_gas_limit,
{
    let requested = state.payload.block_state_calls;
    assert(requested.len() == requested@.len());
}

/// Every report on pending work brings the answer nearer.
pub proof fn reports_make_progress<B, E>(state: SimState<B>, event: Event<B, E>, next: SimState<B>)
    requires
        state.valid(),
        state.awaits(event),
        state.after(event) == Outcome::<B, E>::Continue(next),
    ensures
        0 < next.work_left() < state.work_left(),
{
}

/// A simulation of n blocks is answered after at most 3n + 2 reports.
pub proof fn simulation_is_answered<B, E>(state: SimState<B>, events: Seq<Event<B, E>>)
    requires
        state.valid(),
        state.driven_by(events),
    ensures
        events.len() <= state.work_left() <= 3 * state.payload.block_state_calls@.len() + 2,
        events.len() == state.work_left() ==> state.answer(events) is Some,
    decreases events.len(),
{
    if events.len() > 0 {
        match state.after(events.first()) {
            Outcome::Return(_) => {},
            Outcome::Continue(next) => {
                simulation_stays_valid(state, events.first(), next);
                reports_make_progress(state, events.first(), next);
                simulation_is_answered(next, events.drop_first());
            },
        }
    }
}

/// An event that does not report on the pending work changes nothing.
pub proof fn stray_events_are_ignored<B, E>(state: SimState<B>, event: Event<B, E>)
    requires
        !state.awaits(event),
    ensures
        state.after(event) == Outcome::<B, E>::Continue(state),
{
}

/// What holds from any point of a simulation that ends well: it returns the blocks it had and those it
/// was reported, and each block still to come follows the header that was reported last.
proof fn answered_run<B, E>(state: SimState<B>, events: Seq<Event<B, E>>, blocks: Seq<B>)
    requires
        state.valid(),
        state.driven_by(events),
        state.answer(events) == Some(Ok::<Seq<B>, Failure<E>>(blocks)),
    ensures
        blocks == state.blocks + blocks_in(events),
        blocks.len() == state.payload.block_state_calls@.len(),
        state.blocks.len() + state.parents(events).len() == blocks.len() + 1,
        state.blocks.len() + state.executions(events).len() == blocks.len(),
        openings_in(events) == (if state.pending is RecoverBlock || state.pending is OpenState {
            1nat
        } else {
            0
        }),
        forall|j: int|
            state.blocks.len() <= j < blocks.len() ==> rules::order_violation(
                (#[trigger] state.payload.block_state_calls@[j]).block_overrides,
                state.parents(events)[j - state.blocks.len()],
            ) is None,
        forall|i: int|
            0 <= i < state.executions(events).len() ==> (#[trigger] state.executions(events)[i])
                == (Execution {
                position: (state.blocks.len() + i) as usize,
                parent: state.parents(events)[i],
                header: state.parents(events)[i + 1],
                block: blocks[state.blocks.len() + i],
            }),
    decreases events.len(),
{
    let event = events.first();
    let rest = events.drop_first();
    match state.after(event) {
        Outcome::Return(_) => {
            assert(rest =~= Seq::empty());
            assert(headers_in(rest) =~= Seq::empty());
            assert(blocks_in(rest) =~= Seq::empty());
            assert(openings_in(rest) == 0);
        },
        Outcome::Continue(next) => {
            simulation_stays_valid(state, event, next);
            answered_run(next, rest, blocks);
            assert(state.pending is Execute ==> state.parents(events) =~= seq![
                state.parents(events)[0],
            ] + next.parents(rest));
            assert(!(state.pending is Execute) ==> state.parents(events) =~= next.parents(rest));
            assert(state.pending is Execute ==> state.executions(events) =~= seq![
                state.executions(events)[0],
            ] + next.executions(rest));
            assert(!(state.pending is Execute) ==> state.executions(events) =~= next.executions(
                rest,
            ));
        },
    }
}

/// A simulation that ends well returns the blocks that were built, in the order they were built in:
/// one for each block of the request.
pub proof fn answer_has_every_block<B, E>(
    start: SimState<B>,
    events: Seq<Event<B, E>>,
    blocks: Seq<B>,
)
    requires
        start.valid(),
        start.blocks.len() == 0,
        start.driven_by(events),
        start.answer(events) == Some(Ok::<Seq<B>, Failure<E>>(blocks)),
    ensures
        blocks == blocks_in(events),
        blocks.len() == start.payload.block_state_calls@.len(),
{
    answered_run(start, events, blocks);
    assert(start.blocks + blocks_in(events) =~= blocks_in(events));
}

/// In a simulation that ends well, every block whose number or timestamp the request overrides is
/// later than the block it was simulated on top of: the canonical block for the first, the block
/// before for each of the others.
pub proof fn answered_blocks_are_in_order<B, E>(
    start: SimState<B>,
    events: Seq<Event<B, E>>,
    blocks: Seq<B>,
    position: int,
)
    requires
        start.valid(),
        start.pending is RecoverBlock,
        start.driven_by(events),
        start.answer(events) == Some(Ok::<Seq<B>, Failure<E>>(blocks)),
        0 <= position < blocks.len(),
        start.payload.block_state_calls@[position].block_overrides is Some,
    ensures
        headers_in(events).len() == blocks.len() + 1,
        ({
            let overrides = start.payload.block_state_calls@[position].block_overrides->0;
            let parent = headers_in(events)[position];
            &&& overrides.number matches Some(number) ==> number@ > parent.number
            &&& overrides.time matches Some(time) ==> time > parent.timestamp
        }),
{
    answered_run(start, events, blocks);
    let overrides = start.payload.block_state_calls@[position].block_overrides->0;
    rules::accepted_block_is_later(overrides, headers_in(events)[position]);
}

/// In a simulation that ends well, each block of the request is executed once and in its turn. The
/// first is built on the canonical block and every other one on the block built before it; the answer
/// holds what was built.
pub proof fn each_block_is_built_on_the_one_before<B, E>(
    start: SimState<B>,
    events: Seq<Event<B, E>>,
    blocks: Seq<B>,
    k: int,
)
    requires
        start.valid(),
        start.pending is RecoverBlock,
        start.driven_by(events),
        start.answer(events) == Some(Ok::<Seq<B>, Failure<E>>(blocks)),
        0 <= k < blocks.len(),
    ensures
        start.executions(events).len() == blocks.len(),
        headers_in(events).len() == blocks.len() + 1,
        events.first() == Event::<B, E>::BlockRecovered(Some(headers_in(events)[0])),
        ({
            let execution = start.executions(events)[k];
            &&& execution.position == k
            &&& execution.parent == headers_in(events)[k]
            &&& k > 0 ==> execution.parent == start.executions(events)[k - 1].header
            &&& execution.header == headers_in(events)[k + 1]
            &&& execution.block == blocks[k]
        }),
{
    let requested = start.payload.block_state_calls;
    assert(requested.len() == requested@.len());
    answered_run(start, events, blocks);
    assert(start.executions(events)[k].position == k);
    if k > 0 {
        assert(start.executions(events)[k - 1].header == headers_in(events)[k]);
    }
}

/// In a simulation that ends well, the blocks form a chain from the canonical block, wherever the node
/// gives each block that it builds the hash of the block it was told to build on as its parent's.
pub proof fn answered_blocks_form_a_chain<B, E>(
    start: SimState<B>,
    events: Seq<Event<B, E>>,
    blocks: Seq<B>,
    k: int,
)
    requires
        start.valid(),
        start.pending is RecoverBlock,
        start.driven_by(events),
        start.answer(events) == Some(Ok::<Seq<B>, Failure<E>>(blocks)),
        forall|i: int|
            0 <= i < start.executions(events).len() ==> (#[trigger] start.executions(
                events,
            )[i]).header.parent_hash == start.executions(events)[i].parent.hash,
        0 <= k < blocks.len(),
    ensures
        events.first() == Event::<B, E>::BlockRecovered(Some(headers_in(events)[0])),
        start.executions(events)[k].block == blocks[k],
        start.executions(events)[k].header.parent_hash == (if k == 0 {
            headers_in(events)[0].hash
        } else {
            start.executions(events)[k - 1].header.hash
        }),
{
    each_block_is_built_on_the_one_before(start, events, blocks, k);
}

/// A simulation that ends well opened the state once, so that every block executes on what the blocks
/// before it left there.
pub proof fn state_is_opened_once<B, E>(
    start: SimState<B>,
    events: Seq<Event<B, E>>,
    blocks: Seq<B>,
)
    requires
        start.valid(),
        start.pending is RecoverBlock,
        start.driven_by(events),
        start.answer(events) == Some(Ok::<Seq<B>, Failure<E>>(blocks)),
    ensures
        openings_in(events) == 1,
{
    answered_run(start, events, blocks);
}

/// Calls that are executed never get more gas together than their block has, and none that specifies
/// no limit gets more than the node grants to a call, where it caps calls.
pub proof fn executed_calls_stay_within_the_block<B>(state: SimState<B>)
    requires
        state.valid(),
        state.pending is Execute,
    ensures
        rules::gas_in_total(state.current().calls@, state.pending->default_gas_limit as int)
            <= state.pending->Execute_env.gas_limit,
        state.call_gas_limit > 0 ==> state.pending->default_gas_limit <= state.call_gas_limit,
{
    let calls = state.current().calls@;
    let gas_limit = state.pending->Execute_env.gas_limit;
    rules::calls_stay_within_the_block(calls, gas_limit, state.call_gas_limit);
    rules::gas_share_is_bounded(calls, gas_limit, state.call_gas_limit);
}

/// Whatever gas limit a request asks for, the calls of a block that is executed never get more gas
/// together than the larger of the gas limit that the block has without overrides and what the node
/// grants to a call.
pub proof fn executed_calls_are_capped<B, E>(
    state: SimState<B>,
    next: SimEnv,
    prepared: SimState<B>,
    executed: SimState<B>,
)
    requires
        state.valid(),
        state.pending is PrepareEnv,
        state.after::<E>(Event::EnvPrepared(next)) == Outcome::<B, E>::Continue(prepared),
        prepared.after::<E>(Event::OverridesApplied) == Outcome::<B, E>::Continue(executed),
    ensures
        executed.pending is Execute,
        ({
            let gas = rules::gas_in_total(
                executed.current().calls@,
                executed.pending->default_gas_limit as int,
            );
            gas <= next.gas_limit || gas <= state.call_gas_limit
        }),
{
    simulation_stays_valid::<B, E>(state, Event::EnvPrepared(next), prepared);
    simulation_stays_valid::<B, E>(prepared, Event::OverridesApplied, executed);
    overrides::overridden_gas_limit_is_capped(
        prepared.pending->ApplyOverrides_env,
        state.current().block_overrides,
        state.call_gas_limit,
    );
    executed_calls_stay_within_the_block(executed);
}

/// Every block is executed in the environment that the request asks for. The gas limit, the base fee
/// and the randomness are the overridden ones where they are overridden; otherwise the randomness is
/// zero, and so is the base fee unless the request asks for validation. Senders with code are accepted,
/// and without validation nonces, fees and the gas of a transaction are left unchecked.
pub proof fn executed_environment_is_as_requested<B>(state: SimState<B>)
    requires
        state.valid(),
        state.pending is Execute,
    ensures
        ({
            let env = state.pending->Execute_env;
            &&& env.disable_eip3607
            &&& !state.payload.validation ==> {
                &&& env.disable_nonce_check
                &&& env.disable_base_fee
                &&& env.tx_gas_limit_cap == Some(u64::MAX)
            }
            &&& match state.current().block_overrides {
                None => {
                    &&& env.prevrandao == Some(B256::spec_zero())
                    &&& !state.payload.validation ==> env.basefee == 0
                },
                Some(asked) => {
                    &&& asked.gas_limit is Some ==> Some(env.gas_limit) == asked.gas_limit
                    &&& env.prevrandao == (if asked.random is Some {
                        asked.random
                    } else {
                        Some(B256::spec_zero())
                    })
                    &&& asked.base_fee is Some ==> env.basefee == rules::saturated(
                        asked.base_fee->0@,
                    )
                    &&& asked.base_fee is None && !state.payload.validation ==> env.basefee == 0
                },
            }
        }),
{
}

/// A block without overrides is never refused for its place in the request or for its gas limit.
pub proof fn plain_blocks_are_accepted<B, E>(
    state: SimState<B>,
    parent: BlockHeader,
    env: SimEnv,
)
    requires
        state.current().block_overrides is None,
    ensures
        state.begun::<E>(parent) is Continue,
        state.env_prepared::<E>(parent, env) is Continue,
{
}

} // verus!
