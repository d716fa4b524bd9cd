//! The overrides of a simulated block, put into effect on its environment.

use alloy_evm::overrides::apply_block_overrides;
use alloy_primitives::U256 as Word;
use revm::context::BlockEnv;
use revm::database::{CacheDB, EmptyDB};
use vstd::prelude::*;

use crate::rules;
use crate::rules::{BlockOverrides, SimEnv};
use crate::types::B256;

verus! {

/// An environment with the overrides of a block in effect: the gas limit, the base fee and the
/// randomness are those asked for, and what is not asked for stays. A base fee beyond 64 bits is taken
/// for the largest one.
pub open spec fn overridden_env_of(env: SimEnv, overrides: Option<BlockOverrides>) -> SimEnv {
    match overrides {
        None => env,
        Some(o) => SimEnv {
            gas_limit: match o.gas_limit {
                Some(asked) => asked,
                None => env.gas_limit,
            },
            basefee: match o.base_fee {
                Some(asked) => rules::saturated(asked@),
                None => env.basefee,
            },
            prevrandao: match o.random {
                Some(asked) => Some(asked),
                None => env.prevrandao,
            },
            ..env
        },
    }
}

/// `alloy_evm::overrides::apply_block_overrides`, on the part of the block environment that a
/// [`SimEnv`] holds. Of that function it is claimed that it sets the gas limit and the randomness to
/// the overridden ones, sets the base fee to the overridden one as 64 bits hold it, and leaves each of
/// the three as it is where the overrides do not name it. The rest of a [`SimEnv`] is not handed over.
#[verifier::external_body]
fn apply_overrides(env: SimEnv, overrides: BlockOverrides) -> (overridden: SimEnv)
    ensures
        overridden == overridden_env_of(env, Some(overrides)),
{
    let SimEnv { gas_limit, basefee, .. } = env;
    let prevrandao = env.prevrandao.map(|hash| hash.0.into());
    let mut block = BlockEnv { gas_limit, basefee, prevrandao, ..Default::default() };
    let asked = alloy_rpc_types::BlockOverrides {
        gas_limit: overrides.gas_limit,
        base_fee: overrides.base_fee.map(|w| Word::from_limbs([w.l0, w.l1, w.l2, w.l3])),
        random: overrides.random.map(|hash| hash.0.into()),
        ..Default::default()
    };
    apply_block_overrides(asked, &mut CacheDB::new(EmptyDB::new()), &mut block);
    let BlockEnv { gas_limit, basefee, prevrandao, .. } = block;
    SimEnv { gas_limit, basefee, prevrandao: prevrandao.map(|hash| B256(hash.0)), ..env }
}

/// Puts the overrides of a block, if it has any, into effect.
pub fn overridden_env(env: SimEnv, overrides: &Option<BlockOverrides>) -> (overridden: SimEnv)
    ensures
        overridden == overridden_env_of(env, *overrides),
{
    match overrides {
        Some(o) => apply_overrides(env, *o),
        None => env,
    }
}

/// Overrides that are in effect already change nothing more.
pub proof fn overriding_again_changes_nothing(env: SimEnv, overrides: Option<BlockOverrides>)
    ensures
        overridden_env_of(overridden_env_of(env, overrides), overrides) == overridden_env_of(
            env,
            overrides,
        ),
{
}

/// A block whose overrides passed the gas limit check has no more gas than the larger of its own gas
/// limit and what the node grants to a call.
pub proof fn overridden_gas_limit_is_capped(
    env: SimEnv,
    overrides: Option<BlockOverrides>,
    call_gas_limit: u64,
)
    requires
        !rules::is_uncapped(overrides, env.gas_limit, call_gas_limit),
    ensures
        overridden_env_of(env, overrides).gas_limit <= env.gas_limit || overridden_env_of(
            env,
            overrides,
        ).gas_limit <= call_gas_limit,
{
}

} // verus!
