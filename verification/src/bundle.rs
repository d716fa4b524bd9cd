//! The state diff of a pending block, as the execution engine keeps it in memory.
//!
//! The diff itself is a [`BundleState`]. Nothing here copies it: the functions below look up single
//! entries of it.

use alloy_primitives::U256 as Word;
use revm::bytecode::Bytecode;
use revm::database::{BundleAccount, BundleState};
use std::sync::Arc;
use vstd::prelude::*;

use crate::types;
use crate::types::{AccountInfo, Address, B256, U256};

verus! {

/// The diff of one or more executed blocks: changed accounts and created contracts.
#[verifier::external_type_specification]
#[verifier::external_body]
pub struct ExBundleState(revm::database::BundleState);

/// The changes to one account.
#[verifier::external_type_specification]
#[verifier::external_body]
pub struct ExBundleAccount(revm::database::BundleAccount);

/// The code of a contract.
#[verifier::external_type_specification]
#[verifier::external_body]
pub struct ExBytecode(revm::bytecode::Bytecode);

/// What a diff says of one account.
pub struct AccountDiff {
    /// The account after the diff; absent where it was destroyed or never existed.
    pub info: Option<AccountInfo>,
    /// The present value of each slot that the diff holds, by the slot's number.
    pub storage: Map<nat, U256>,
    /// Whether the diff knows the account's whole storage, as it does of one that was created or
    /// destroyed in it.
    pub storage_known: bool,
}

/// The accounts that a diff holds, by their address.
pub uninterp spec fn bundle_accounts(bundle: BundleState) -> Map<Seq<u8>, AccountDiff>;

/// The contracts that a diff holds, by the hash of their code.
pub uninterp spec fn bundle_contracts(bundle: BundleState) -> Map<Seq<u8>, Bytecode>;

/// What one account's changes hold.
pub uninterp spec fn account_diff(account: BundleAccount) -> AccountDiff;

impl AccountDiff {
    /// What the diff says of a storage slot: the value written, zero where the whole storage is
    /// known and the slot is not in it, nothing where the slot is untouched.
    pub open spec fn slot(self, slot: nat) -> Option<U256> {
        if self.storage.dom().contains(slot) {
            Some(self.storage[slot])
        } else if self.storage_known {
            Some(zero_word())
        } else {
            None
        }
    }
}

/// The integer zero.
pub open spec fn zero_word() -> U256 {
    U256 { l0: 0, l1: 0, l2: 0, l3: 0 }
}

/// The Keccak-256 hash of the empty string.
pub open spec fn empty_code_hash() -> Seq<u8> {
    seq![
        0xc5, 0xd2, 0x46, 0x01, 0x86, 0xf7, 0x23, 0x3c, 0x92, 0x7e, 0x7d, 0xb2, 0xdc, 0xc7, 0x03,
        0xc0, 0xe5, 0x00, 0xb6, 0x53, 0xca, 0x82, 0x27, 0x3b, 0x7b, 0xfa, 0xd8, 0x04, 0x5d, 0x85,
        0xa4, 0x70,
    ]
}

/// Looks up the changes to an account.
///
/// Calls `BundleState::account`, a lookup in the map of accounts: it finds an entry exactly where
/// the diff holds the address, and the entry found is the one held there.
#[verifier::external_body]
pub(crate) fn bundle_account<'a>(bundle: &'a BundleState, address: &Address) -> (account: Option<
    &'a BundleAccount,
>)
    ensures
        account is Some <==> bundle_accounts(*bundle).dom().contains(address@),
        account matches Some(found) ==> account_diff(*found) == bundle_accounts(*bundle)[address@],
{
    bundle.account(&alloy_primitives::Address::new(address.0))
}

/// The account as it stands after its changes.
///
/// Calls `BundleAccount::account_info`, which hands out the present information that the changes
/// hold, if any. The code that may come with it is left behind.
#[verifier::external_body]
pub(crate) fn bundle_account_info(account: &BundleAccount) -> (info: Option<AccountInfo>)
    ensures
        info == account_diff(*account).info,
{
    match account.account_info() {
        Some(info) => {
            let [l0, l1, l2, l3] = info.balance.into_limbs();
            let balance = U256 { l0, l1, l2, l3 };
            Some(AccountInfo { balance, nonce: info.nonce, code_hash: B256(info.code_hash.0) })
        },
        None => None,
    }
}

/// The value that an account's changes give a storage slot.
///
/// Calls `BundleAccount::storage_slot`: the slot's present value where the changes hold the slot;
/// otherwise zero where the account's status says that its storage is known, and nothing where it
/// does not.
#[verifier::external_body]
pub(crate) fn bundle_storage_slot(account: &BundleAccount, slot: U256) -> (value: Option<U256>)
    ensures
        value == account_diff(*account).slot(slot@),
{
    match account.storage_slot(Word::from_limbs([slot.l0, slot.l1, slot.l2, slot.l3])) {
        Some(value) => {
            let [l0, l1, l2, l3] = value.into_limbs();
            Some(U256 { l0, l1, l2, l3 })
        },
        None => None,
    }
}

/// Looks up the code of a contract that the diff created.
///
/// Calls `get` on the field `BundleState::contracts`, the map of contracts: it finds a code exactly
/// where the diff holds the hash, and the code found is the one held there.
#[verifier::external_body]
pub(crate) fn bundle_contract<'a>(bundle: &'a BundleState, code_hash: &B256) -> (code: Option<
    &'a Bytecode,
>)
    ensures
        code is Some <==> bundle_contracts(*bundle).dom().contains(code_hash@),
        code matches Some(found) ==> *found == bundle_contracts(*bundle)[code_hash@],
{
    bundle.contracts.get(&alloy_primitives::B256::new(code_hash.0))
}

/// `Bytecode::clone`: another handle to the same shared, immutable code.
pub assume_specification[ <Bytecode as Clone>::clone ](code: &Bytecode) -> (copy: Bytecode)
    ensures
        copy == *code,
;

/// Another handle to a shared diff.
///
/// Calls `Arc::clone`, which makes another pointer to the same value. That the two share one
/// allocation is left unsaid: contracts speak of what a pointer points to, not of where.
#[verifier::external_body]
pub(crate) fn share_bundle(bundle: &Arc<BundleState>) -> (shared: Arc<BundleState>)
    ensures
        shared == *bundle,
{
    Arc::clone(bundle)
}

/// The code hash of an account without code: the constant `KECCAK_EMPTY`.
#[verifier::external_body]
pub(crate) fn keccak_empty() -> (hash: B256)
    ensures
        hash@ == empty_code_hash(),
{
    B256(revm::primitives::KECCAK_EMPTY.0)
}

/// Reads a big-endian integer.
///
/// Calls `U256::from_be_bytes`, which takes the first byte as the most significant one.
#[verifier::external_body]
pub(crate) fn word_from_be_bytes(bytes: [u8; 32]) -> (word: U256)
    ensures
        word@ == types::be_value(bytes@),
{
    let [l0, l1, l2, l3] = Word::from_be_bytes(bytes).into_limbs();
    U256 { l0, l1, l2, l3 }
}

} // verus!
