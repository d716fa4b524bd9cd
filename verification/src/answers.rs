//! What single calls answer, in terms of what they are asked.
//!
//! Each law takes the arguments of a call and a result that the call may have, and says how the two
//! relate.

use revm::bytecode::Bytecode;
use revm::database::BundleState;
use std::sync::Arc;
use vstd::prelude::*;

use crate::bundle;
use crate::overlay;
use crate::overlay::{EvmStateProvider, PendingBundleOverlay};
use crate::overrides;
use crate::pending::PendingBlocks;
use crate::rules;
use crate::rules::{BlockHeader, BlockOverrides, Call, SimEnv, SimulateError, SimulatePayload};
use crate::simulation::{Action, OverlayCall, SimState, SimulateLimits, Simulation};
use crate::types;
use crate::types::{
    Account, AccountInfo, Address, BlockNumber, StorageKey, StorageValue, B256, U256,
};

verus! {

/// A word has the value of its limbs, each 64 bits above the one before.
pub proof fn limbs_are_64_bits_apart(word: U256)
    ensures
        word@ == word.l0 + 0x1_0000_0000_0000_0000 * word.l1
            + 0x1_0000_0000_0000_0000_0000_0000_0000_0000int * word.l2
            + 0x1_0000_0000_0000_0000_0000_0000_0000_0000_0000_0000_0000_0000int * word.l3,
{
}

/// A 64-bit integer survives the way into a word and back, and a word that holds more has no way back.
pub proof fn narrow_words_survive(value: u64, word: U256, narrow: Option<u64>)
    requires
        call_ensures(U256::to_u64, (word,), narrow),
    ensures
        word@ == value ==> narrow == Some(value),
        word@ > u64::MAX ==> narrow is None,
        call_ensures(<U256 as From<u64>>::from, (value,), word) ==> word@ == value && narrow == Some(
            value,
        ),
{
}

/// Bytes are read most significant first: a further byte at the end counts one, and each of those
/// before it 256 times as much as it did.
pub proof fn last_byte_is_least_significant(bytes: Seq<u8>, byte: u8)
    ensures
        types::be_value(Seq::empty()) == 0,
        types::be_value(bytes.push(byte)) == 256 * types::be_value(bytes) + byte,
{
    assert(bytes.push(byte).drop_last() =~= bytes);
}

/// Two words are equal exactly where all their bytes are.
pub proof fn words_are_compared_whole(a: B256, b: B256, same: bool)
    requires
        call_ensures(<B256 as PartialEq>::eq, (&a, &b), same),
    ensures
        same <==> (forall|i: int| 0 <= i < 32 ==> a.0@[i] == b.0@[i]),
{
    assert(a.0@.len() == 32 && b.0@.len() == 32);
    if forall|i: int| 0 <= i < 32 ==> a.0@[i] == b.0@[i] {
        assert(a.0@ =~= b.0@);
    }
}

/// Every byte of the zero word is zero.
pub proof fn zero_word_is_zero(word: B256, i: int)
    requires
        call_ensures(B256::zero, (), word),
        0 <= i < 32,
    ensures
        word.0@[i] == 0,
        word == B256::spec_zero(),
{
}

/// The account reported for a recorded one has its balance and its nonce, and its code hash unless that
/// is the hash of no code.
pub proof fn reported_account_is_the_recorded_one(info: AccountInfo, account: Account)
    requires
        call_ensures(overlay::to_reth_account, (info,), account),
    ensures
        account.balance == info.balance,
        account.balance@ == info.balance@,
        account.nonce == info.nonce,
        account.bytecode_hash is None <==> info.code_hash@ == bundle::empty_code_hash(),
        account.bytecode_hash matches Some(hash) ==> hash == info.code_hash,
{
}

/// An overlay is over the state and serves the diff that it was made of.
pub proof fn overlay_is_made_of_state_and_diff<P>(
    inner: P,
    bundle: Arc<BundleState>,
    overlay: PendingBundleOverlay<P>,
)
    requires
        call_ensures(PendingBundleOverlay::<P>::new, (inner, bundle), overlay),
    ensures
        overlay.canonical() == inner,
        overlay.pending() == *bundle,
{
}

/// An account that the diff holds is read from the diff: it has the balance and the nonce recorded
/// there, and it is absent where the diff records no account. Every other account is the canonical
/// one.
pub proof fn account_read_is_the_recorded_one<P: EvmStateProvider>(
    overlay: PendingBundleOverlay<P>,
    address: Address,
    answer: Result<Option<Account>, P::Error>,
)
    requires
        call_ensures(PendingBundleOverlay::<P>::basic_account, (&overlay, &address), answer),
    ensures
        ({
            let diffs = bundle::bundle_accounts(overlay.pending());
            if !diffs.dom().contains(address@) {
                call_ensures(P::basic_account, (&overlay.canonical(), &address), answer)
            } else {
                match diffs[address@].info {
                    None => answer == Ok::<Option<Account>, P::Error>(None),
                    Some(info) => {
                        &&& answer matches Ok(Some(account))
                        &&& account.balance == info.balance
                        &&& account.balance@ == info.balance@
                        &&& account.nonce == info.nonce
                        &&& account.bytecode_hash is None <==> info.code_hash@
                            == bundle::empty_code_hash()
                        &&& account.bytecode_hash matches Some(hash) ==> hash == info.code_hash
                    },
                }
            }
        }),
{
}

/// A slot that the diff holds has the value recorded there. Of an account whose whole storage the diff
/// knows, every other slot is zero. What is left is read from the canonical state, under the same key.
pub proof fn slot_read_is_the_recorded_one<P: EvmStateProvider>(
    overlay: PendingBundleOverlay<P>,
    account: Address,
    key: StorageKey,
    answer: Result<Option<StorageValue>, P::Error>,
)
    requires
        call_ensures(PendingBundleOverlay::<P>::storage, (&overlay, account, key), answer),
    ensures
        ({
            let diffs = bundle::bundle_accounts(overlay.pending());
            let slot = types::be_value(key.0@);
            if diffs.dom().contains(account@) && diffs[account@].storage.dom().contains(slot) {
                answer == Ok::<Option<StorageValue>, P::Error>(Some(diffs[account@].storage[slot]))
            } else if diffs.dom().contains(account@) && diffs[account@].storage_known {
                answer matches Ok(Some(value)) && value@ == 0
            } else {
                call_ensures(P::storage, (&overlay.canonical(), account, key), answer)
            }
        }),
{
}

/// A code that the diff holds is read from the diff, and every other one from the canonical state.
pub proof fn code_read_is_the_recorded_one<P: EvmStateProvider>(
    overlay: PendingBundleOverlay<P>,
    code_hash: B256,
    answer: Result<Option<Bytecode>, P::Error>,
)
    requires
        call_ensures(PendingBundleOverlay::<P>::bytecode_by_hash, (&overlay, &code_hash), answer),
    ensures
        ({
            let codes = bundle::bundle_contracts(overlay.pending());
            if codes.dom().contains(code_hash@) {
                answer == Ok::<Option<Bytecode>, P::Error>(Some(codes[code_hash@]))
            } else {
                call_ensures(P::bytecode_by_hash, (&overlay.canonical(), &code_hash), answer)
            }
        }),
{
}

/// The hash of a block is the canonical one, whatever the diff holds.
pub proof fn block_hash_read_is_canonical<P: EvmStateProvider>(
    overlay: PendingBundleOverlay<P>,
    number: BlockNumber,
    answer: Result<Option<B256>, P::Error>,
)
    requires
        call_ensures(PendingBundleOverlay::<P>::block_hash, (&overlay, number), answer),
    ensures
        call_ensures(P::block_hash, (&overlay.canonical(), number), answer),
{
}

/// The first flashblock is the latest one. It is found at its coordinates and nothing is found
/// anywhere else; the canonical block is the given one.
pub proof fn first_snapshot_is_found(
    canonical: BlockNumber,
    number: BlockNumber,
    index: u64,
    bundle: Arc<BundleState>,
    pending: PendingBlocks,
    n: BlockNumber,
    i: u64,
    found: Option<Arc<BundleState>>,
    latest: Arc<BundleState>,
    base: BlockNumber,
)
    requires
        call_ensures(PendingBlocks::new, (canonical, number, index, bundle), pending),
        call_ensures(PendingBlocks::get_historical_bundle_state_at, (&pending, n, i), found),
        call_ensures(PendingBlocks::latest_bundle_state, (&pending,), latest),
        call_ensures(PendingBlocks::canonical_block_number, (&pending,), base),
    ensures
        found is Some <==> n == number && i == index,
        found matches Some(snapshot) ==> *snapshot == *bundle,
        *latest == *bundle,
        base == canonical,
{
}

/// A further flashblock becomes the latest one and is found at its coordinates. What is found at any
/// others is what was found there before, and the canonical block stays the same.
pub proof fn further_snapshot_is_found_and_others_stay(
    before: PendingBlocks,
    number: BlockNumber,
    index: u64,
    bundle: Arc<BundleState>,
    after: PendingBlocks,
    n: BlockNumber,
    i: u64,
    found_before: Option<Arc<BundleState>>,
    found_after: Option<Arc<BundleState>>,
    latest: Arc<BundleState>,
    base_before: BlockNumber,
    base_after: BlockNumber,
)
    requires
        call_ensures(PendingBlocks::with_snapshot, (before, number, index, bundle), after),
        call_ensures(PendingBlocks::get_historical_bundle_state_at, (&before, n, i), found_before),
        call_ensures(PendingBlocks::get_historical_bundle_state_at, (&after, n, i), found_after),
        call_ensures(PendingBlocks::latest_bundle_state, (&after,), latest),
        call_ensures(PendingBlocks::canonical_block_number, (&before,), base_before),
        call_ensures(PendingBlocks::canonical_block_number, (&after,), base_after),
    ensures
        if n == number && i == index {
            found_after matches Some(snapshot) && *snapshot == *bundle
        } else {
            &&& found_after is Some <==> found_before is Some
            &&& found_after is Some ==> *found_after->0 == *found_before->0
        },
        *latest == *bundle,
        base_after == base_before,
{
}

/// A request is refused for its number of blocks before anything else.
pub proof fn block_count_is_checked_first<B>(
    limits: SimulateLimits,
    pending: PendingBlocks,
    opts: SimulatePayload,
    block_number: Option<u64>,
    block_index: Option<u64>,
    started: Result<Simulation<B>, SimulateError>,
)
    requires
        call_ensures(
            OverlayCall::simulate_v1::<B>,
            (limits, &pending, opts, block_number, block_index),
            started,
        ),
    ensures
        started == Err::<Simulation<B>, SimulateError>(SimulateError::TooManyBlocks)
            <==> opts.block_state_calls@.len() > limits.max_simulate_blocks as usize,
        started == Err::<Simulation<B>, SimulateError>(SimulateError::NoCalls)
            <==> opts.block_state_calls@.len() == 0,
{
}

/// Where both coordinates are given, whatever they are, a simulation starts on the diff captured at
/// them, and where no diff was captured there its block is not found. Where a coordinate is missing,
/// the simulation starts on the latest diff. Nothing of this depends on what is simulated.
pub proof fn requested_snapshot_is_simulated_on<B>(
    limits: SimulateLimits,
    pending: PendingBlocks,
    opts: SimulatePayload,
    block_number: Option<u64>,
    block_index: Option<u64>,
    started: Result<Simulation<B>, SimulateError>,
)
    requires
        call_ensures(
            OverlayCall::simulate_v1::<B>,
            (limits, &pending, opts, block_number, block_index),
            started,
        ),
        0 < opts.block_state_calls@.len() <= limits.max_simulate_blocks as usize,
    ensures
        block_number is Some && block_index is Some ==> match pending.snapshot_at(
            block_number->0,
            block_index->0,
        ) {
            Some(bundle) => started is Ok && started->Ok_0@.bundle == bundle,
            None => started == Err::<Simulation<B>, SimulateError>(
                SimulateError::HeaderNotFound(block_number->0),
            ),
        },
        block_number is None || block_index is None ==> started is Ok && started->Ok_0@.bundle
            == pending.latest(),
{
}

/// A simulation starts with the request as it is given and the node's limit on calls. It has built no
/// block yet, and it asks for the canonical block beneath the diffs, whichever of them it runs on.
pub proof fn simulation_starts_from_the_canonical_block<B>(
    limits: SimulateLimits,
    pending: PendingBlocks,
    opts: SimulatePayload,
    block_number: Option<u64>,
    block_index: Option<u64>,
    started: Simulation<B>,
)
    requires
        call_ensures(
            OverlayCall::simulate_v1::<B>,
            (limits, &pending, opts, block_number, block_index),
            Ok::<Simulation<B>, SimulateError>(started),
        ),
    ensures
        started@ == (SimState {
            payload: opts,
            bundle: started@.bundle,
            base: pending.parent_number(),
            call_gas_limit: limits.call_gas_limit,
            blocks: Seq::<B>::empty(),
            pending: Action::RecoverBlock { number: pending.parent_number() },
        }),
{
}

/// The state that a simulation runs on serves the diff that a lookup at the coordinates of the request
/// finds, or the latest one where a coordinate is missing. Beneath it is the state handed in, and the
/// block asked for first is the canonical one.
pub proof fn simulation_reads_the_requested_snapshot<B, P>(
    limits: SimulateLimits,
    pending: PendingBlocks,
    opts: SimulatePayload,
    block_number: Option<u64>,
    block_index: Option<u64>,
    started: Simulation<B>,
    found: Option<Arc<BundleState>>,
    latest: Arc<BundleState>,
    base: BlockNumber,
    state: P,
    overlay: PendingBundleOverlay<P>,
    action: Action,
)
    requires
        call_ensures(
            OverlayCall::simulate_v1::<B>,
            (limits, &pending, opts, block_number, block_index),
            Ok::<Simulation<B>, SimulateError>(started),
        ),
        call_ensures(
            PendingBlocks::get_historical_bundle_state_at,
            (&pending, block_number->0, block_index->0),
            found,
        ),
        call_ensures(PendingBlocks::latest_bundle_state, (&pending,), latest),
        call_ensures(PendingBlocks::canonical_block_number, (&pending,), base),
        call_ensures(Simulation::<B>::overlay::<P>, (&started, state), overlay),
        call_ensures(Simulation::<B>::action, (&started,), action),
    ensures
        block_number is Some && block_index is Some ==> found is Some && overlay.pending()
            == *found->0,
        block_number is None || block_index is None ==> overlay.pending() == *latest,
        overlay.canonical() == state,
        action == (Action::RecoverBlock { number: base }),
{
}

/// A simulation under way reads through the diff that it stands for, and names the work that it waits
/// for.
pub proof fn simulation_shows_what_it_stands_for<B, P>(
    simulation: Simulation<B>,
    state: P,
    overlay: PendingBundleOverlay<P>,
    action: Action,
)
    requires
        call_ensures(Simulation::<B>::overlay::<P>, (&simulation, state), overlay),
        call_ensures(Simulation::<B>::action, (&simulation,), action),
    ensures
        overlay.canonical() == state,
        overlay.pending() == simulation@.bundle,
        action == simulation@.pending,
{
}

/// Invalid parameters are answered with their own message, and no other error with any.
pub proof fn invalid_parameters_have_a_message(
    error: SimulateError,
    message: Option<&'static str>,
)
    requires
        call_ensures(SimulateError::invalid_params, (&error,), message),
    ensures
        message is Some <==> error == SimulateError::TooManyBlocks || error
            == SimulateError::NoCalls,
        error == SimulateError::TooManyBlocks ==> message->0@ == "too many blocks."@,
        error == SimulateError::NoCalls ==> message->0@ == "calls are empty."@,
{
}

/// A block may follow its parent exactly where the number and the timestamp that it asks for, if any,
/// exceed the parent's; nothing exceeds a number at the end of 64 bits. The error names what was
/// asked for, a number beyond 64 bits as the largest one, and what it had to exceed. The number is
/// looked at first.
pub proof fn later_blocks_and_no_others_are_accepted(
    overrides: Option<BlockOverrides>,
    parent: BlockHeader,
    checked: Result<(), SimulateError>,
)
    requires
        call_ensures(rules::check_block_order, (&overrides, parent), checked),
    ensures
        ({
            let number = match overrides {
                Some(asked) => asked.number,
                None => None,
            };
            let time = match overrides {
                Some(asked) => asked.time,
                None => None,
            };
            let number_exceeds = number matches Some(n) ==> n@ > parent.number && parent.number
                < u64::MAX;
            let time_exceeds = time matches Some(t) ==> t > parent.timestamp;
            &&& checked is Ok <==> number_exceeds && time_exceeds
            &&& !number_exceeds ==> checked == Err::<(), SimulateError>(
                SimulateError::BlockNumberInvalid {
                    got: if number->0@ <= u64::MAX {
                        number->0@ as u64
                    } else {
                        u64::MAX
                    },
                    parent: parent.number,
                },
            )
            &&& number_exceeds && !time_exceeds ==> checked == Err::<(), SimulateError>(
                SimulateError::BlockTimestampInvalid { got: time->0, parent: parent.timestamp },
            )
        }),
{
}

/// A gas limit asked for is refused exactly where it exceeds both the block's own and the node's, and
/// nothing else that is asked for is.
pub proof fn only_uncapped_gas_limits_are_refused(
    overrides: Option<BlockOverrides>,
    gas_limit: u64,
    call_gas_limit: u64,
    checked: Result<(), SimulateError>,
)
    requires
        call_ensures(rules::check_gas_limit, (&overrides, gas_limit, call_gas_limit), checked),
    ensures
        overrides is None ==> checked is Ok,
        overrides matches Some(asked) ==> match asked.gas_limit {
            None => checked is Ok,
            Some(gas) => {
                &&& gas <= gas_limit ==> checked is Ok
                &&& gas <= call_gas_limit ==> checked is Ok
                &&& gas > gas_limit && gas > call_gas_limit ==> checked == Err::<(), SimulateError>(
                    SimulateError::GasLimitReached,
                )
            },
        },
{
}

/// The set-up for a simulation takes the environment of the next block over. It accepts senders with
/// code and clears the randomness; only where no validation is asked for, it lifts the checks of
/// nonces, of fees and of the gas of a transaction, and clears the base fee.
pub proof fn set_up_keeps_the_next_environment(next: SimEnv, validation: bool, env: SimEnv)
    requires
        call_ensures(rules::simulation_env, (next, validation), env),
    ensures
        env.chain_id == next.chain_id,
        env.gas_limit == next.gas_limit,
        env.disable_eip3607,
        env.prevrandao matches Some(random) && forall|i: int| 0 <= i < 32 ==> random.0@[i] == 0,
        if validation {
            &&& env.disable_nonce_check == next.disable_nonce_check
            &&& env.disable_base_fee == next.disable_base_fee
            &&& env.tx_gas_limit_cap == next.tx_gas_limit_cap
            &&& env.basefee == next.basefee
        } else {
            &&& env.disable_nonce_check
            &&& env.disable_base_fee
            &&& env.tx_gas_limit_cap == Some(u64::MAX)
            &&& env.basefee == 0
        },
{
}

/// What is overridden has the value asked for, a base fee beyond 64 bits the largest one, and what is
/// not overridden stays.
pub proof fn overridden_values_are_those_asked_for(
    env: SimEnv,
    overrides: Option<BlockOverrides>,
    overridden: SimEnv,
)
    requires
        call_ensures(overrides::overridden_env, (env, &overrides), overridden),
    ensures
        overrides is None ==> overridden == env,
        overrides matches Some(asked) ==> {
            &&& overridden.gas_limit == (if asked.gas_limit is Some {
                asked.gas_limit->0
            } else {
                env.gas_limit
            })
            &&& asked.base_fee is None ==> overridden.basefee == env.basefee
            &&& asked.base_fee matches Some(fee) ==> if fee@ <= u64::MAX {
                overridden.basefee == fee@
            } else {
                overridden.basefee == u64::MAX
            }
            &&& overridden.prevrandao == (if asked.random is Some {
                asked.random
            } else {
                env.prevrandao
            })
        },
        overridden.chain_id == env.chain_id,
        overridden.disable_eip3607 == env.disable_eip3607,
        overridden.disable_nonce_check == env.disable_nonce_check,
        overridden.disable_base_fee == env.disable_base_fee,
        overridden.tx_gas_limit_cap == env.tx_gas_limit_cap,
{
}

/// Gas is added up call by call: a further call adds the gas that it specifies. In the gas of all
/// calls together, one that specifies none counts with the default.
pub proof fn each_call_adds_its_gas(calls: Seq<Call>, call: Call, default: int)
    ensures
        rules::specified_gas_of(Seq::empty()) == 0,
        rules::gas_in_total(Seq::empty(), default) == 0,
        rules::specified_gas_of(calls.push(call)) == rules::specified_gas_of(calls) + (
        if call.gas_limit is Some {
            call.gas_limit->0 as int
        } else {
            0
        }),
        rules::gas_in_total(calls.push(call), default) == rules::gas_in_total(calls, default) + (
        if call.gas_limit is Some {
            call.gas_limit->0 as int
        } else {
            default
        }),
{
    assert(calls.push(call).drop_last() =~= calls);
}

/// The sum of the gas specified is given wherever 64 bits hold it.
pub proof fn specified_gas_is_the_sum(calls: Vec<Call>, total: Option<u64>)
    requires
        call_ensures(rules::specified_gas, (&calls,), total),
    ensures
        rules::specified_gas_of(calls@) <= u64::MAX ==> total is Some && total->0
            == rules::specified_gas_of(calls@),
        rules::specified_gas_of(calls@) > u64::MAX ==> total is None,
{
}

/// There are unspecified calls exactly where some call specifies no gas.
proof fn unspecified_calls_are_calls(calls: Seq<Call>)
    ensures
        rules::unspecified_calls(calls) > 0 <==> exists|i: int|
            0 <= i < calls.len() && (#[trigger] calls[i]).gas_limit is None,
    decreases calls.len(),
{
    if calls.len() > 0 {
        let before = calls.drop_last();
        unspecified_calls_are_calls(before);
        if exists|i: int| 0 <= i < before.len() && (#[trigger] before[i]).gas_limit is None {
            let i = choose|i: int|
                0 <= i < before.len() && (#[trigger] before[i]).gas_limit is None;
            assert(calls[i].gas_limit is None);
        }
        if exists|i: int| 0 <= i < calls.len() && (#[trigger] calls[i]).gas_limit is None {
            let i = choose|i: int| 0 <= i < calls.len() && (#[trigger] calls[i]).gas_limit is None;
            assert(i < before.len() ==> before[i].gas_limit is None);
            assert(i == calls.len() - 1 ==> calls.last().gas_limit is None);
        }
        assert(calls[calls.len() - 1] == calls.last());
    }
}

/// Calls are refused exactly where they specify more gas than the block has. Otherwise calls without a
/// limit get as much as the block and the node's cap allow: all calls together stay within the block,
/// and a unit more for each would exceed the one or the other. Where every call has a limit it is
/// zero.
pub proof fn default_gas_is_the_most_there_is(
    calls: Vec<Call>,
    block_gas_limit: u64,
    call_gas_limit: u64,
    gas: Result<u64, SimulateError>,
)
    requires
        call_ensures(rules::default_gas_limit, (&calls, block_gas_limit, call_gas_limit), gas),
    ensures
        gas is Err <==> rules::specified_gas_of(calls@) > block_gas_limit,
        gas matches Err(error) ==> error == SimulateError::BlockGasLimitExceeded,
        gas matches Ok(share) ==> {
            &&& rules::gas_in_total(calls@, share as int) <= block_gas_limit
            &&& call_gas_limit > 0 ==> share <= call_gas_limit
            &&& forall|i: int|
                0 <= i < calls@.len() && (#[trigger] calls@[i]).gas_limit is None ==> {
                    ||| rules::gas_in_total(calls@, share + 1) > block_gas_limit
                    ||| 0 < call_gas_limit < share + 1
                }
            &&& (forall|i: int|
                0 <= i < calls@.len() ==> (#[trigger] calls@[i]).gas_limit is Some) ==> share == 0
        },
{
    unspecified_calls_are_calls(calls@);
    if gas is Ok {
        rules::calls_stay_within_the_block(calls@, block_gas_limit, call_gas_limit);
        rules::gas_share_is_bounded(calls@, block_gas_limit, call_gas_limit);
        if rules::unspecified_calls(calls@) > 0 && (call_gas_limit == 0 || gas->Ok_0
            < call_gas_limit) {
            rules::gas_share_is_largest(calls@, block_gas_limit, call_gas_limit);
        }
    }
}

} // verus!
