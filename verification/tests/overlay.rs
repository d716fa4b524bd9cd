use std::collections::HashMap;
use std::sync::Arc;

use flashblocks_overlay::{
    to_reth_account, Account, AccountInfo, Address, BlockNumber, EvmStateProvider, PendingBlocks,
    PendingBundleOverlay, StorageKey, StorageValue, B256, U256,
};
use revm::bytecode::Bytecode;
use revm::database::states::StorageSlot;
use revm::database::{AccountStatus, BundleAccount, BundleState};
use revm::primitives::{Bytes, KECCAK_EMPTY};

type Word = alloy_primitives::U256;

/// A trivial in-memory canonical state beneath the overlay.
#[derive(Debug, Default)]
struct MockState {
    accounts: HashMap<Address, Account>,
    storage: HashMap<(Address, StorageKey), StorageValue>,
    hashes: HashMap<BlockNumber, B256>,
    codes: HashMap<B256, Bytecode>,
}

impl EvmStateProvider for MockState {
    type Error = String;

    fn basic_account(&self, address: &Address) -> Result<Option<Account>, String> {
        Ok(self.accounts.get(address).copied())
    }

    fn block_hash(&self, number: BlockNumber) -> Result<Option<B256>, String> {
        Ok(self.hashes.get(&number).copied())
    }

    fn bytecode_by_hash(&self, code_hash: &B256) -> Result<Option<Bytecode>, String> {
        Ok(self.codes.get(code_hash).cloned())
    }

    fn storage(
        &self,
        account: Address,
        storage_key: StorageKey,
    ) -> Result<Option<StorageValue>, String> {
        Ok(self.storage.get(&(account, storage_key)).copied())
    }
}

/// A canonical state that cannot be read.
#[derive(Debug)]
struct BrokenState;

impl EvmStateProvider for BrokenState {
    type Error = String;

    fn basic_account(&self, _address: &Address) -> Result<Option<Account>, String> {
        Err("account".to_string())
    }

    fn block_hash(&self, _number: BlockNumber) -> Result<Option<B256>, String> {
        Err("hash".to_string())
    }

    fn bytecode_by_hash(&self, _code_hash: &B256) -> Result<Option<Bytecode>, String> {
        Err("code".to_string())
    }

    fn storage(
        &self,
        _account: Address,
        _storage_key: StorageKey,
    ) -> Result<Option<StorageValue>, String> {
        Err("storage".to_string())
    }
}

fn addr(b: u8) -> Address {
    Address(alloy_primitives::Address::repeat_byte(b).into_array())
}

fn outside_addr(address: Address) -> alloy_primitives::Address {
    alloy_primitives::Address::new(address.0)
}

fn key(n: u64) -> B256 {
    B256(alloy_primitives::B256::from(Word::from(n)).0)
}

fn bundle_with_change(
    account: Address,
    balance: Word,
    slot: B256,
    value: Word,
    status: AccountStatus,
) -> BundleState {
    let info = revm::state::AccountInfo { balance, nonce: 1, ..Default::default() };
    let mut storage = revm::database::StorageWithOriginalValues::default();
    storage.insert(Word::from_be_bytes(slot.0), StorageSlot::new_changed(Word::ZERO, value));
    let mut bundle = BundleState::default();
    bundle
        .state
        .insert(outside_addr(account), BundleAccount::new(None, Some(info), storage, status));
    bundle
}

/// Pending blocks whose diff changes `account` (balance and one slot) with `status`.
fn pending_with_change(
    account: Address,
    balance: u64,
    slot: B256,
    value: u64,
    status: AccountStatus,
) -> PendingBlocks {
    let bundle = bundle_with_change(account, Word::from(balance), slot, Word::from(value), status);
    PendingBlocks::new(0, 1, 0, Arc::new(bundle))
}

#[test]
fn bundle_account_overrides_canonical() {
    let account = addr(1);
    let slot = key(7);
    let pending = pending_with_change(account, 500, slot, 42, AccountStatus::Changed);

    let mut canonical = MockState::default();
    canonical
        .accounts
        .insert(account, Account { nonce: 0, balance: U256::from(1), bytecode_hash: None });
    canonical.storage.insert((account, slot), U256::from(9));

    let overlay = PendingBundleOverlay::new(canonical, pending.latest_bundle_state());

    // Balance and slot come from the bundle, not canonical.
    assert_eq!(overlay.basic_account(&account).unwrap().unwrap().balance, U256::from(500));
    assert_eq!(overlay.storage(account, slot).unwrap(), Some(U256::from(42)));
}

#[test]
fn falls_through_to_canonical_for_untouched_state() {
    let changed = addr(1);
    let slot = key(7);
    // `Changed` does not make the storage known: untouched slots fall through to canonical.
    let pending = pending_with_change(changed, 500, slot, 42, AccountStatus::Changed);

    let other = addr(2);
    let other_slot = key(3);
    let untouched_slot = key(99);
    let mut canonical = MockState::default();
    canonical
        .accounts
        .insert(other, Account { nonce: 5, balance: U256::from(123), bytecode_hash: None });
    canonical.storage.insert((other, other_slot), U256::from(77));
    canonical.storage.insert((changed, untouched_slot), U256::from(55));

    let overlay = PendingBundleOverlay::new(canonical, pending.latest_bundle_state());

    // Account not in the bundle: canonical.
    assert_eq!(overlay.basic_account(&other).unwrap().unwrap().balance, U256::from(123));
    assert_eq!(overlay.storage(other, other_slot).unwrap(), Some(U256::from(77)));
    // Untouched slot on a changed account: canonical.
    assert_eq!(overlay.storage(changed, untouched_slot).unwrap(), Some(U256::from(55)));
}

#[test]
fn historical_bundle_snapshot_is_retained_and_keyed() {
    let account = addr(1);
    let slot = key(7);
    // A single flashblock at block 1, index 0.
    let pending = pending_with_change(account, 500, slot, 42, AccountStatus::Changed);

    // The snapshot at the latest coordinates is retained and matches the latest bundle.
    let snapshot = pending.get_historical_bundle_state_at(1, 0).expect("snapshot retained");
    assert!(snapshot.account(&outside_addr(account)).is_some());
    assert!(Arc::ptr_eq(&snapshot, &pending.latest_bundle_state()));

    // Coordinates with no snapshot return `None`.
    assert!(pending.get_historical_bundle_state_at(1, 9).is_none());
    assert!(pending.get_historical_bundle_state_at(2, 0).is_none());
}

#[test]
fn earlier_snapshots_are_retained() {
    let first = Arc::new(BundleState::default());
    let second = Arc::new(BundleState::default());
    let third = Arc::new(BundleState::default());
    let pending = PendingBlocks::new(41, 42, 0, Arc::clone(&first))
        .with_snapshot(42, 1, Arc::clone(&second))
        .with_snapshot(43, 0, Arc::clone(&third));

    assert_eq!(pending.canonical_block_number(), 41);
    assert!(Arc::ptr_eq(&pending.get_historical_bundle_state_at(42, 0).unwrap(), &first));
    assert!(Arc::ptr_eq(&pending.get_historical_bundle_state_at(42, 1).unwrap(), &second));
    assert!(Arc::ptr_eq(&pending.get_historical_bundle_state_at(43, 0).unwrap(), &third));
    assert!(Arc::ptr_eq(&pending.latest_bundle_state(), &third));
    assert!(pending.get_historical_bundle_state_at(43, 1).is_none());
}

#[test]
fn newest_snapshot_at_the_same_coordinates_wins() {
    let first = Arc::new(BundleState::default());
    let second = Arc::new(BundleState::default());
    let pending = PendingBlocks::new(0, 1, 0, first).with_snapshot(1, 0, Arc::clone(&second));
    assert!(Arc::ptr_eq(&pending.get_historical_bundle_state_at(1, 0).unwrap(), &second));
}

#[test]
fn storage_of_a_created_account_is_known() {
    let account = addr(1);
    for status in [
        AccountStatus::InMemoryChange,
        AccountStatus::DestroyedChanged,
        AccountStatus::DestroyedAgain,
        AccountStatus::Destroyed,
        AccountStatus::LoadedNotExisting,
    ] {
        let pending = pending_with_change(account, 1, key(7), 42, status);
        let mut canonical = MockState::default();
        canonical.storage.insert((account, key(8)), U256::from(55));
        let overlay = PendingBundleOverlay::new(canonical, pending.latest_bundle_state());
        assert_eq!(overlay.storage(account, key(7)).unwrap(), Some(U256::from(42)));
        assert_eq!(overlay.storage(account, key(8)).unwrap(), Some(U256::from(0)));
    }
}

#[test]
fn storage_of_a_loaded_account_is_not_known() {
    let account = addr(1);
    for status in [AccountStatus::Loaded, AccountStatus::LoadedEmptyEIP161, AccountStatus::Changed]
    {
        let pending = pending_with_change(account, 1, key(7), 42, status);
        let overlay =
            PendingBundleOverlay::new(MockState::default(), pending.latest_bundle_state());
        assert_eq!(overlay.storage(account, key(8)).unwrap(), None);
    }
}

#[test]
fn destroyed_account_is_absent() {
    let account = addr(1);
    let mut bundle = BundleState::default();
    bundle.state.insert(
        outside_addr(account),
        BundleAccount::new(None, None, Default::default(), AccountStatus::Destroyed),
    );
    let mut canonical = MockState::default();
    canonical
        .accounts
        .insert(account, Account { nonce: 9, balance: U256::from(9), bytecode_hash: None });
    canonical.storage.insert((account, key(1)), U256::from(9));
    let overlay = PendingBundleOverlay::new(canonical, Arc::new(bundle));
    assert_eq!(overlay.basic_account(&account).unwrap(), None);
    assert_eq!(overlay.storage(account, key(1)).unwrap(), Some(U256::from(0)));
}

#[test]
fn wide_balances_and_slots_are_kept() {
    let account = addr(1);
    let mut bytes = [0u8; 32];
    for (i, b) in bytes.iter_mut().enumerate() {
        *b = i as u8 + 1;
    }
    let slot = B256(bytes);
    let wide = Word::from_limbs([1, 2, 3, 4]);
    let bundle = bundle_with_change(account, wide, slot, wide, AccountStatus::Changed);
    let overlay = PendingBundleOverlay::new(MockState::default(), Arc::new(bundle));
    let expected = U256 { l0: 1, l1: 2, l2: 3, l3: 4 };
    assert_eq!(overlay.basic_account(&account).unwrap().unwrap().balance, expected);
    assert_eq!(overlay.storage(account, slot).unwrap(), Some(expected));
    // The key with its bytes reversed is another slot.
    let mut reversed = bytes;
    reversed.reverse();
    assert_eq!(overlay.storage(account, B256(reversed)).unwrap(), None);
}

#[test]
fn code_hash_of_an_account_without_code_is_dropped() {
    let empty = B256(KECCAK_EMPTY.0);
    let info = AccountInfo { balance: U256::from(3), nonce: 4, code_hash: empty };
    assert_eq!(
        to_reth_account(info),
        Account { nonce: 4, balance: U256::from(3), bytecode_hash: None }
    );
    let code_hash = B256([7u8; 32]);
    let info = AccountInfo { code_hash, ..info };
    assert_eq!(
        to_reth_account(info),
        Account { nonce: 4, balance: U256::from(3), bytecode_hash: Some(code_hash) }
    );
    // A hash that differs from the empty one in its last byte only.
    let mut near = empty;
    near.0[31] ^= 1;
    assert_eq!(to_reth_account(AccountInfo { code_hash: near, ..info }).bytecode_hash, Some(near));
}

#[test]
fn code_hash_of_a_changed_account_is_reported() {
    let account = addr(1);
    let info = revm::state::AccountInfo {
        nonce: 6,
        code_hash: alloy_primitives::B256::repeat_byte(9),
        ..Default::default()
    };
    let mut bundle = BundleState::default();
    bundle.state.insert(
        outside_addr(account),
        BundleAccount::new(None, Some(info), Default::default(), AccountStatus::InMemoryChange),
    );
    let overlay = PendingBundleOverlay::new(MockState::default(), Arc::new(bundle));
    assert_eq!(
        overlay.basic_account(&account).unwrap(),
        Some(Account { nonce: 6, balance: U256::from(0), bytecode_hash: Some(B256([9u8; 32])) })
    );
}

#[test]
fn created_contracts_come_from_the_bundle() {
    let created = B256([1u8; 32]);
    let deployed = B256([2u8; 32]);
    let created_code = Bytecode::new_raw(Bytes::from_static(&[0x60, 0x01]));
    let deployed_code = Bytecode::new_raw(Bytes::from_static(&[0x60, 0x02]));
    let mut bundle = BundleState::default();
    bundle.contracts.insert(alloy_primitives::B256::new(created.0), created_code.clone());
    let mut canonical = MockState::default();
    canonical.codes.insert(created, deployed_code.clone());
    canonical.codes.insert(deployed, deployed_code.clone());
    let overlay = PendingBundleOverlay::new(canonical, Arc::new(bundle));

    let found = overlay.bytecode_by_hash(&created).unwrap().unwrap();
    assert_eq!(found.original_byte_slice(), created_code.original_byte_slice());
    let found = overlay.bytecode_by_hash(&deployed).unwrap().unwrap();
    assert_eq!(found.original_byte_slice(), deployed_code.original_byte_slice());
    assert!(overlay.bytecode_by_hash(&B256([3u8; 32])).unwrap().is_none());
}

#[test]
fn block_hashes_come_from_canonical() {
    let mut canonical = MockState::default();
    canonical.hashes.insert(10, B256([8u8; 32]));
    let pending = pending_with_change(addr(1), 1, key(1), 1, AccountStatus::Changed);
    let overlay = PendingBundleOverlay::new(canonical, pending.latest_bundle_state());
    assert_eq!(overlay.block_hash(10).unwrap(), Some(B256([8u8; 32])));
    assert_eq!(overlay.block_hash(11).unwrap(), None);
}

#[test]
fn only_reads_that_miss_reach_canonical() {
    let account = addr(1);
    let pending = pending_with_change(account, 500, key(7), 42, AccountStatus::Changed);
    let overlay = PendingBundleOverlay::new(BrokenState, pending.latest_bundle_state());
    assert_eq!(overlay.basic_account(&account).unwrap().unwrap().nonce, 1);
    assert_eq!(overlay.storage(account, key(7)), Ok(Some(U256::from(42))));
    assert_eq!(overlay.basic_account(&addr(2)), Err("account".to_string()));
    assert_eq!(overlay.storage(account, key(8)), Err("storage".to_string()));
    assert_eq!(overlay.storage(addr(2), key(7)), Err("storage".to_string()));
    assert_eq!(overlay.block_hash(1), Err("hash".to_string()));
    assert!(overlay.bytecode_by_hash(&key(1)).is_err());
}

#[test]
fn overlays_stack() {
    let lower = bundle_with_change(
        addr(1),
        Word::from(10),
        key(1),
        Word::from(11),
        AccountStatus::Changed,
    );
    let upper = bundle_with_change(
        addr(1),
        Word::from(20),
        key(2),
        Word::from(22),
        AccountStatus::Changed,
    );
    let mut canonical = MockState::default();
    canonical.storage.insert((addr(1), key(3)), U256::from(33));
    let below = PendingBundleOverlay::new(canonical, Arc::new(lower));
    let overlay = PendingBundleOverlay::new(below, Arc::new(upper));
    assert_eq!(overlay.basic_account(&addr(1)).unwrap().unwrap().balance, U256::from(20));
    assert_eq!(overlay.storage(addr(1), key(2)).unwrap(), Some(U256::from(22)));
    assert_eq!(overlay.storage(addr(1), key(1)).unwrap(), Some(U256::from(11)));
    assert_eq!(overlay.storage(addr(1), key(3)).unwrap(), Some(U256::from(33)));
}

#[test]
fn empty_bundle_is_transparent() {
    let mut canonical = MockState::default();
    let account = Account { nonce: 2, balance: U256::from(4), bytecode_hash: None };
    canonical.accounts.insert(addr(1), account);
    canonical.storage.insert((addr(1), key(3)), U256::from(33));
    let overlay = PendingBundleOverlay::new(canonical, Arc::new(BundleState::default()));
    assert_eq!(overlay.basic_account(&addr(1)).unwrap(), Some(account));
    assert_eq!(overlay.storage(addr(1), key(3)).unwrap(), Some(U256::from(33)));
}

/// Every read agrees with a copy of the canonical state into which the whole diff is written.
#[test]
fn reads_agree_with_the_applied_diff() {
    let mut bundle =
        bundle_with_change(addr(1), Word::from(5), key(1), Word::from(6), AccountStatus::Changed);
    bundle.state.insert(
        outside_addr(addr(2)),
        BundleAccount::new(None, None, Default::default(), AccountStatus::Destroyed),
    );
    let mut canonical = MockState::default();
    let mut applied: HashMap<(Address, StorageKey), StorageValue> = HashMap::new();
    for a in 1..4u8 {
        for k in 0..3u64 {
            let value = U256::from(100 * a as u64 + k);
            canonical.storage.insert((addr(a), key(k)), value);
            // The storage of the second account was destroyed.
            if a != 2 {
                applied.insert((addr(a), key(k)), value);
            }
        }
    }
    applied.insert((addr(1), key(1)), U256::from(6));
    let overlay = PendingBundleOverlay::new(canonical, Arc::new(bundle));
    for a in 1..4u8 {
        for k in 0..4u64 {
            let read = overlay.storage(addr(a), key(k)).unwrap().unwrap_or(U256::from(0));
            let expected = applied.get(&(addr(a), key(k))).copied().unwrap_or(U256::from(0));
            assert_eq!(read, expected);
        }
    }
}
