//! A lazy overlay of a pending diff over canonical state.
//!
//! Each read looks into the diff first and goes to the canonical state only where the diff is silent.
//! The diff is shared and never copied, so a call pays for the state it reads and not for the size
//! of the diff.

use revm::bytecode::Bytecode;
use revm::database::BundleState;
use std::sync::Arc;
use vstd::prelude::*;

use crate::bundle;
use crate::bundle::{
    bundle_account, bundle_account_info, bundle_contract, bundle_storage_slot, keccak_empty,
    word_from_be_bytes, AccountDiff,
};
use crate::types;
use crate::types::{
    Account, AccountInfo, Address, BlockNumber, StorageKey, StorageValue, B256,
};

verus! {

/// Reads of the state that a block executes on.
pub trait EvmStateProvider {
    /// Why a read failed.
    type Error;

    /// The account at `address`, if there is one.
    fn basic_account(&self, address: &Address) -> (account: Result<Option<Account>, Self::Error>);

    /// The hash of the canonical block with the given number, if it is known.
    fn block_hash(&self, number: BlockNumber) -> (hash: Result<Option<B256>, Self::Error>);

    /// The code with the given hash, if it is known.
    fn bytecode_by_hash(&self, code_hash: &B256) -> (code: Result<Option<Bytecode>, Self::Error>);

    /// The value of a storage slot of `account`, if it is known.
    fn storage(&self, account: Address, storage_key: StorageKey) -> (value: Result<
        Option<StorageValue>,
        Self::Error,
    >);
}

/// An overlay that serves reads from a pending [`BundleState`] before it falls back to the canonical
/// state provider `P`.
#[derive(Debug, Clone)]
pub struct PendingBundleOverlay<P> {
    inner: P,
    bundle: Arc<BundleState>,
}

/// An [`AccountInfo`] as a state provider reports it: an account without code has no code hash.
pub open spec fn provider_account(info: AccountInfo) -> Account {
    Account {
        nonce: info.nonce,
        balance: info.balance,
        bytecode_hash: if info.code_hash@ == bundle::empty_code_hash() {
            None
        } else {
            Some(info.code_hash)
        },
    }
}

/// What the changes in `diffs` answer to a read of the account at `address`: `None` where they leave
/// the read to the canonical state, `Some(None)` where they know that there is no such account.
pub open spec fn account_in(
    diffs: Map<Seq<u8>, AccountDiff>,
    address: Seq<u8>,
) -> Option<Option<Account>> {
    if diffs.dom().contains(address) {
        Some(
            match diffs[address].info {
                Some(info) => Some(provider_account(info)),
                None => None,
            },
        )
    } else {
        None
    }
}

/// What the changes in `diffs` answer to a read of a storage slot: `None` where they leave the read
/// to the canonical state.
pub open spec fn slot_in(
    diffs: Map<Seq<u8>, AccountDiff>,
    address: Seq<u8>,
    slot: nat,
) -> Option<StorageValue> {
    if diffs.dom().contains(address) {
        diffs[address].slot(slot)
    } else {
        None
    }
}

/// Converts the changed account that a diff holds into the account that a provider reports.
pub fn to_reth_account(info: AccountInfo) -> (account: Account)
    ensures
        account == provider_account(info),
{
    let bytecode_hash = if info.code_hash != keccak_empty() {
        Some(info.code_hash)
    } else {
        None
    };
    Account { nonce: info.nonce, balance: info.balance, bytecode_hash }
}

impl<P> PendingBundleOverlay<P> {
    /// The canonical state beneath the overlay.
    pub closed spec fn canonical(&self) -> P {
        self.inner
    }

    /// The diff that the overlay serves first.
    pub closed spec fn pending(&self) -> BundleState {
        *self.bundle
    }

    /// The accounts that the diff changed, by their address.
    pub open spec fn diffs(&self) -> Map<Seq<u8>, AccountDiff> {
        bundle::bundle_accounts(self.pending())
    }

    /// The contracts that the diff created, by the hash of their code.
    pub open spec fn contracts(&self) -> Map<Seq<u8>, Bytecode> {
        bundle::bundle_contracts(self.pending())
    }

    /// Creates an overlay over `inner` that serves reads from `bundle` before it falls back to
    /// `inner`.
    pub fn new(inner: P, bundle: Arc<BundleState>) -> (overlay: Self)
        ensures
            overlay.canonical() == inner,
            overlay.pending() == *bundle,
    {
        Self { inner, bundle }
    }
}

impl<P: EvmStateProvider> EvmStateProvider for PendingBundleOverlay<P> {
    type Error = P::Error;

    /// A changed account comes from the diff, and a destroyed one is reported as absent; every other
    /// account is what the canonical state answers.
    fn basic_account(&self, address: &Address) -> (account: Result<Option<Account>, Self::Error>)
        ensures
            account_in(self.diffs(), address@) matches Some(served)
                ==> account == Ok::<Option<Account>, P::Error>(served),
            account_in(self.diffs(), address@) is None
                ==> call_ensures(P::basic_account, (&self.canonical(), address), account),
    {
        if let Some(changed) = bundle_account(&self.bundle, address) {
            return Ok(
                match bundle_account_info(changed) {
                    Some(info) => Some(to_reth_account(info)),
                    None => None,
                },
            );
        }
        self.inner.basic_account(address)
    }

    /// Block hashes are not affected by the diff: the canonical state answers.
    fn block_hash(&self, number: BlockNumber) -> (hash: Result<Option<B256>, Self::Error>)
        ensures
            call_ensures(P::block_hash, (&self.canonical(), number), hash),
    {
        self.inner.block_hash(number)
    }

    /// A contract created in the diff comes from it; every other code is what the canonical state
    /// answers.
    fn bytecode_by_hash(&self, code_hash: &B256) -> (code: Result<Option<Bytecode>, Self::Error>)
        ensures
            self.contracts().dom().contains(code_hash@)
                ==> code == Ok::<Option<Bytecode>, P::Error>(Some(self.contracts()[code_hash@])),
            !self.contracts().dom().contains(code_hash@)
                ==> call_ensures(P::bytecode_by_hash, (&self.canonical(), code_hash), code),
    {
        if let Some(found) = bundle_contract(&self.bundle, code_hash) {
            return Ok(Some(found.clone()));
        }
        self.inner.bytecode_by_hash(code_hash)
    }

    /// A slot that the diff wrote has the value written. An unwritten slot is zero where the diff
    /// knows the account's whole storage; every other slot is what the canonical state answers.
    fn storage(&self, account: Address, storage_key: StorageKey) -> (value: Result<
        Option<StorageValue>,
        Self::Error,
    >)
        ensures
            slot_in(self.diffs(), account@, types::be_value(storage_key@)) matches Some(served)
                ==> value == Ok::<Option<StorageValue>, P::Error>(Some(served)),
            slot_in(self.diffs(), account@, types::be_value(storage_key@)) is None
                ==> call_ensures(P::storage, (&self.canonical(), account, storage_key), value),
    {
        if let Some(changed) = bundle_account(&self.bundle, &account) {
            // Slots of the diff are numbered, while the provider's keys are words.
            if let Some(value) = bundle_storage_slot(changed, word_from_be_bytes(storage_key.0)) {
                return Ok(Some(value));
            }
        }
        self.inner.storage(account, storage_key)
    }
}

} // verus!
