//! The rules of a block simulation: which blocks may follow which, how the execution environment is
//! set up, and how the gas of a block is divided among its calls.

use vstd::prelude::*;

use crate::types::{BlockNumber, B256, U256};

verus! {

/// A block header: what identifies the block, what links it to the one before, and what the rules
/// read of it.
#[derive(Debug, Clone, Copy, PartialEq, Eq)]
pub struct BlockHeader {
    /// The block's hash.
    pub hash: B256,
    /// The hash of the block before.
    pub parent_hash: B256,
    /// The block's number.
    pub number: BlockNumber,
    /// The block's timestamp, in seconds since the Unix epoch.
    pub timestamp: u64,
}

/// What the rules read and put into effect of the overrides of a simulated block.
#[derive(Debug, Clone, Copy, PartialEq, Eq)]
pub struct BlockOverrides {
    /// The block number asked for.
    pub number: Option<U256>,
    /// The timestamp asked for.
    pub time: Option<u64>,
    /// The gas limit asked for.
    pub gas_limit: Option<u64>,
    /// The base fee asked for.
    pub base_fee: Option<U256>,
    /// The randomness asked for.
    pub random: Option<B256>,
}

/// What the rules read of a call.
#[derive(Debug, Clone, Copy, PartialEq, Eq, Structural)]
pub struct Call {
    /// The gas limit that the call specifies, if it does.
    pub gas_limit: Option<u64>,
}

/// A block to simulate.
#[derive(Debug)]
pub struct SimBlock {
    /// Changes to the block's characteristics.
    pub block_overrides: Option<BlockOverrides>,
    /// Whether the block comes with changes to the state.
    pub state_overrides: bool,
    /// The calls to execute.
    pub calls: Vec<Call>,
}

/// A simulation request.
#[derive(Debug)]
pub struct SimulatePayload {
    /// The blocks to simulate, each on top of the one before.
    pub block_state_calls: Vec<SimBlock>,
    /// Whether transfers are recorded as logs.
    pub trace_transfers: bool,
    /// Whether nonces and fees are checked as they would be on chain.
    pub validation: bool,
    /// Whether results carry full transactions.
    pub return_full_transactions: bool,
}

/// What the rules read and set of the environment that a block executes in.
#[derive(Debug, Clone, Copy, PartialEq, Eq)]
pub struct SimEnv {
    /// The chain.
    pub chain_id: u64,
    /// Whether senders with code are accepted.
    pub disable_eip3607: bool,
    /// Whether nonces are left unchecked.
    pub disable_nonce_check: bool,
    /// Whether the base fee is left unchecked.
    pub disable_base_fee: bool,
    /// The largest gas limit of a transaction.
    pub tx_gas_limit_cap: Option<u64>,
    /// The gas limit of the block.
    pub gas_limit: u64,
    /// The base fee of the block.
    pub basefee: u64,
    /// The randomness of the block.
    pub prevrandao: Option<B256>,
}

/// Why a simulation is refused.
#[derive(Debug, Clone, Copy, PartialEq, Eq, Structural)]
pub enum SimulateError {
    /// More blocks are asked for than the node simulates in one request.
    TooManyBlocks,
    /// No block is asked for.
    NoCalls,
    /// The block, or the snapshot of it, is not available.
    HeaderNotFound(BlockNumber),
    /// The number asked for does not exceed the parent's.
    BlockNumberInvalid {
        /// The number asked for.
        got: u64,
        /// The parent's number.
        parent: u64,
    },
    /// The timestamp asked for does not exceed the parent's.
    BlockTimestampInvalid {
        /// The timestamp asked for.
        got: u64,
        /// The parent's timestamp.
        parent: u64,
    },
    /// The gas limit asked for exceeds what the node grants.
    GasLimitReached,
    /// The calls specify more gas than the block has.
    BlockGasLimitExceeded,
}

impl SimulateError {
    /// The message for a request whose parameters are invalid.
    pub open spec fn message(self) -> Option<Seq<char>> {
        match self {
            SimulateError::TooManyBlocks => Some("too many blocks."@),
            SimulateError::NoCalls => Some("calls are empty."@),
            _ => None,
        }
    }

    /// The message to answer with where the parameters of the request are invalid.
    pub fn invalid_params(&self) -> (message: Option<&'static str>)
        ensures
            message is Some <==> self.message() is Some,
            message matches Some(text) ==> Some(text@) == self.message(),
    {
        match self {
            SimulateError::TooManyBlocks => Some("too many blocks."),
            SimulateError::NoCalls => Some("calls are empty."),
            _ => None,
        }
    }
}

/// A number as 64 bits hold it: numbers beyond are taken for the largest one.
pub open spec fn saturated(number: nat) -> u64 {
    if number <= u64::MAX {
        number as u64
    } else {
        u64::MAX
    }
}

/// The first rule that the overridden number or timestamp of a block breaks, if any: both must exceed
/// the parent's.
pub open spec fn order_violation(
    overrides: Option<BlockOverrides>,
    parent: BlockHeader,
) -> Option<SimulateError> {
    match overrides {
        None => None,
        Some(o) => if o.number is Some && saturated(o.number->0@) <= parent.number {
            Some(
                SimulateError::BlockNumberInvalid {
                    got: saturated(o.number->0@),
                    parent: parent.number,
                },
            )
        } else if o.time is Some && o.time->0 <= parent.timestamp {
            Some(SimulateError::BlockTimestampInvalid { got: o.time->0, parent: parent.timestamp })
        } else {
            None
        },
    }
}

/// Checks that a block with the given overrides may follow `parent`.
pub fn check_block_order(overrides: &Option<BlockOverrides>, parent: BlockHeader) -> (checked: Result<
    (),
    SimulateError,
>)
    ensures
        order_violation(*overrides, parent) is None ==> checked is Ok,
        order_violation(*overrides, parent) matches Some(broken) ==> checked == Err::<
            (),
            SimulateError,
        >(broken),
{
    if let Some(o) = overrides {
        if let Some(number) = o.number {
            let number: u64 = match number.to_u64() {
                Some(narrow) => narrow,
                None => u64::MAX,
            };
            if number <= parent.number {
                return Err(
                    SimulateError::BlockNumberInvalid { got: number, parent: parent.number },
                );
            }
        }
        if let Some(time) = o.time {
            if time <= parent.timestamp {
                return Err(
                    SimulateError::BlockTimestampInvalid { got: time, parent: parent.timestamp },
                );
            }
        }
    }
    Ok(())
}

/// The environment that a block is simulated in, made from the one that the next block would have.
/// Senders with code are always accepted, and the randomness is zero until the caller overrides it.
/// Nonces and fees are checked only where the caller asks for validation.
pub open spec fn simulation_env_of(next: SimEnv, validation: bool) -> SimEnv {
    let env = SimEnv { disable_eip3607: true, prevrandao: Some(B256::spec_zero()), ..next };
    if validation {
        env
    } else {
        SimEnv {
            disable_nonce_check: true,
            disable_base_fee: true,
            tx_gas_limit_cap: Some(u64::MAX),
            basefee: 0,
            ..env
        }
    }
}

/// Sets up the environment of a simulated block from the one that the next block would have.
pub fn simulation_env(next: SimEnv, validation: bool) -> (env: SimEnv)
    ensures
        env == simulation_env_of(next, validation),
{
    let mut env = next;
    env.disable_eip3607 = true;
    if !validation {
        env.disable_nonce_check = true;
        env.disable_base_fee = true;
        env.tx_gas_limit_cap = Some(u64::MAX);
        env.basefee = 0;
    }
    env.prevrandao = Some(B256::zero());
    env
}

/// Whether the gas limit asked for exceeds both the block's own and the largest that the node grants
/// to a call.
pub open spec fn is_uncapped(
    overrides: Option<BlockOverrides>,
    gas_limit: u64,
    call_gas_limit: u64,
) -> bool {
    &&& overrides is Some
    &&& overrides->0.gas_limit is Some
    &&& overrides->0.gas_limit->0 > gas_limit
    &&& overrides->0.gas_limit->0 > call_gas_limit
}

/// Checks that the overrides do not ask for an uncapped gas limit.
pub fn check_gas_limit(
    overrides: &Option<BlockOverrides>,
    gas_limit: u64,
    call_gas_limit: u64,
) -> (checked: Result<(), SimulateError>)
    ensures
        checked == (if is_uncapped(*overrides, gas_limit, call_gas_limit) {
            Err(SimulateError::GasLimitReached)
        } else {
            Ok(())
        }),
{
    if let Some(o) = overrides {
        if let Some(asked) = o.gas_limit {
            if asked > gas_limit && asked > call_gas_limit {
                return Err(SimulateError::GasLimitReached);
            }
        }
    }
    Ok(())
}

/// The gas that the calls specify, added up.
pub open spec fn specified_gas_of(calls: Seq<Call>) -> nat
    decreases calls.len(),
{
    if calls.len() == 0 {
        0
    } else {
        specified_gas_of(calls.drop_last()) + match calls.last().gas_limit {
            Some(gas) => gas as nat,
            None => 0,
        }
    }
}

/// How many of the calls specify no gas limit.
pub open spec fn unspecified_calls(calls: Seq<Call>) -> nat
    decreases calls.len(),
{
    if calls.len() == 0 {
        0
    } else {
        unspecified_calls(calls.drop_last()) + if calls.last().gas_limit is None {
            1nat
        } else {
            0
        }
    }
}

/// The gas that a call without a gas limit gets: an equal share of what the other calls leave of the
/// block's gas, and no more than the node grants to a call, where it caps calls at all. It is zero
/// where every call has a limit.
pub open spec fn gas_share(calls: Seq<Call>, block_gas_limit: u64, call_gas_limit: u64) -> int {
    if unspecified_calls(calls) == 0 {
        0
    } else {
        let share = (block_gas_limit - specified_gas_of(calls)) / unspecified_calls(calls) as int;
        if 0 < call_gas_limit < share {
            call_gas_limit as int
        } else {
            share
        }
    }
}

proof fn specified_gas_grows(calls: Seq<Call>, taken: int)
    requires
        0 <= taken <= calls.len(),
    ensures
        specified_gas_of(calls.take(taken)) <= specified_gas_of(calls),
    decreases calls.len() - taken,
{
    if taken < calls.len() {
        specified_gas_grows(calls, taken + 1);
        assert(calls.take(taken + 1).drop_last() =~= calls.take(taken));
    } else {
        assert(calls.take(taken) =~= calls);
    }
}

/// Adds up the gas that the calls specify. There is no result where the sum exceeds 64 bits.
pub fn specified_gas(calls: &Vec<Call>) -> (total: Option<u64>)
    ensures
        total is Some <==> specified_gas_of(calls@) <= u64::MAX,
        total matches Some(sum) ==> sum == specified_gas_of(calls@),
{
    let mut total: u64 = 0;
    for i in 0..calls.len()
        invariant
            total == specified_gas_of(calls@.take(i as int)),
    {
        assert(calls@.take(i + 1).drop_last() =~= calls@.take(i as int));
        if let Some(gas) = calls[i].gas_limit {
            proof {
                specified_gas_grows(calls@, i + 1);
            }
            total = match total.checked_add(gas) {
                Some(sum) => sum,
                None => return None,
            };
        }
    }
    assert(calls@.take(calls@.len() as int) =~= calls@);
    Some(total)
}

/// Counts the calls that specify no gas limit.
fn count_unspecified(calls: &Vec<Call>) -> (count: usize)
    ensures
        count == unspecified_calls(calls@),
{
    let mut count: usize = 0;
    for i in 0..calls.len()
        invariant
            count <= i,
            count == unspecified_calls(calls@.take(i as int)),
    {
        assert(calls@.take(i + 1).drop_last() =~= calls@.take(i as int));
        if calls[i].gas_limit.is_none() {
            count = count + 1;
        }
    }
    assert(calls@.take(calls@.len() as int) =~= calls@);
    count
}

/// The gas limit of the calls of a block that specify none.
pub fn default_gas_limit(calls: &Vec<Call>, block_gas_limit: u64, call_gas_limit: u64) -> (gas: Result<
    u64,
    SimulateError,
>)
    ensures
        specified_gas_of(calls@) > block_gas_limit ==> gas == Err::<u64, SimulateError>(
            SimulateError::BlockGasLimitExceeded,
        ),
        specified_gas_of(calls@) <= block_gas_limit ==> gas is Ok && gas->Ok_0 == gas_share(
            calls@,
            block_gas_limit,
            call_gas_limit,
        ),
{
    let total: u64 = match specified_gas(calls) {
        Some(sum) => sum,
        // More than 64 bits hold is more than any block has.
        None => return Err(SimulateError::BlockGasLimitExceeded),
    };
    if total > block_gas_limit {
        return Err(SimulateError::BlockGasLimitExceeded);
    }
    let unspecified: usize = count_unspecified(calls);
    if unspecified == 0 {
        return Ok(0);
    }
    let share: u64 = (block_gas_limit - total) / unspecified as u64;
    if call_gas_limit > 0 && call_gas_limit < share {
        Ok(call_gas_limit)
    } else {
        Ok(share)
    }
}

/// The gas that all calls may use together, where those without a limit get `default`.
pub open spec fn gas_in_total(calls: Seq<Call>, default: int) -> int
    decreases calls.len(),
{
    if calls.len() == 0 {
        0
    } else {
        gas_in_total(calls.drop_last(), default) + match calls.last().gas_limit {
            Some(gas) => gas as int,
            None => default,
        }
    }
}

proof fn gas_in_total_splits(calls: Seq<Call>, default: int)
    ensures
        gas_in_total(calls, default) == specified_gas_of(calls) + default * unspecified_calls(calls),
    decreases calls.len(),
{
    if calls.len() > 0 {
        gas_in_total_splits(calls.drop_last(), default);
        let before = unspecified_calls(calls.drop_last());
        assert(default * (before + 1) == default * before + default) by (nonlinear_arith);
    } else {
        assert(default * 0 == 0) by (nonlinear_arith);
    }
}

/// The calls of a block never get more gas together than the block has.
pub proof fn calls_stay_within_the_block(
    calls: Seq<Call>,
    block_gas_limit: u64,
    call_gas_limit: u64,
)
    requires
        specified_gas_of(calls) <= block_gas_limit,
    ensures
        0 <= gas_share(calls, block_gas_limit, call_gas_limit),
        gas_in_total(calls, gas_share(calls, block_gas_limit, call_gas_limit)) <= block_gas_limit,
{
    let default = gas_share(calls, block_gas_limit, call_gas_limit);
    let left = block_gas_limit - specified_gas_of(calls);
    let count = unspecified_calls(calls) as int;
    gas_in_total_splits(calls, default);
    if count > 0 {
        assert(0 <= left / count && (left / count) * count <= left) by (nonlinear_arith)
            requires
                0 <= left,
                0 < count,
        ;
        assert(default * count <= (left / count) * count) by (nonlinear_arith)
            requires
                default <= left / count,
                0 < count,
        ;
    } else {
        assert(default * count == 0) by (nonlinear_arith)
            requires
                count == 0,
        ;
    }
}

/// The division leaves no gas over: unless the node's cap applies, one more gas for each call without
/// a limit would exceed the block.
pub proof fn gas_share_is_largest(calls: Seq<Call>, block_gas_limit: u64, call_gas_limit: u64)
    requires
        specified_gas_of(calls) <= block_gas_limit,
        unspecified_calls(calls) > 0,
        call_gas_limit == 0 || gas_share(calls, block_gas_limit, call_gas_limit) < call_gas_limit,
    ensures
        gas_in_total(calls, gas_share(calls, block_gas_limit, call_gas_limit) + 1) > block_gas_limit,
{
    let left = block_gas_limit - specified_gas_of(calls);
    let count = unspecified_calls(calls) as int;
    gas_in_total_splits(calls, gas_share(calls, block_gas_limit, call_gas_limit) + 1);
    assert((left / count + 1) * count > left) by (nonlinear_arith)
        requires
            0 <= left,
            0 < count,
    ;
}

/// No call without a gas limit gets more gas than the block has, nor more than the node grants to a
/// call, where it caps calls.
pub proof fn gas_share_is_bounded(calls: Seq<Call>, block_gas_limit: u64, call_gas_limit: u64)
    requires
        specified_gas_of(calls) <= block_gas_limit,
    ensures
        0 <= gas_share(calls, block_gas_limit, call_gas_limit) <= block_gas_limit,
        call_gas_limit > 0 ==> gas_share(calls, block_gas_limit, call_gas_limit) <= call_gas_limit,
{
    let left = block_gas_limit - specified_gas_of(calls);
    let count = unspecified_calls(calls) as int;
    if count > 0 {
        assert(0 <= left / count <= left) by (nonlinear_arith)
            requires
                0 <= left,
                0 < count,
        ;
    }
}

/// A block that passes the order check is later than its parent: the number and the timestamp that it
/// asks for exceed the parent's, however large the number is.
pub proof fn accepted_block_is_later(overrides: BlockOverrides, parent: BlockHeader)
    requires
        order_violation(Some(overrides), parent) is None,
    ensures
        overrides.number matches Some(number) ==> number@ > parent.number,
        overrides.time matches Some(time) ==> time > parent.timestamp,
{
}

/// A gas limit that passes the check is at most the larger of the block's own and the node's.
pub proof fn accepted_gas_limit_is_capped(
    overrides: BlockOverrides,
    gas_limit: u64,
    call_gas_limit: u64,
)
    requires
        !is_uncapped(Some(overrides), gas_limit, call_gas_limit),
    ensures
        overrides.gas_limit matches Some(asked) ==> asked <= gas_limit || asked <= call_gas_limit,
{
}

} // verus!
