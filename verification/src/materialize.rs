//! What a diff means: the state that results when all of it is written into a copy of the canonical
//! state.
//!
//! No code does this. It is the state that reads through the overlay must agree with.

use revm::bytecode::Bytecode;
use vstd::prelude::*;

use crate::bundle;
use crate::bundle::AccountDiff;
use crate::overlay;
use crate::overlay::{EvmStateProvider, PendingBundleOverlay};
use crate::types;
use crate::types::{Account, Address, StorageKey, StorageValue, B256, U256};

verus! {

/// The storage of an account after its changes: it is cleared first where the diff knows all of it, and
/// then every changed slot is set.
pub open spec fn storage_after(before: Map<nat, U256>, diff: AccountDiff) -> Map<nat, U256> {
    if diff.storage_known {
        diff.storage
    } else {
        before.union_prefer_right(diff.storage)
    }
}

/// A whole state: accounts by address, and the storage of each account by slot.
#[verifier::ext_equal]
pub struct WorldState {
    /// Accounts by their address.
    pub accounts: Map<Seq<u8>, Account>,
    /// The recorded slots of each account, by its address.
    pub storage: Map<Seq<u8>, Map<nat, U256>>,
}

impl WorldState {
    /// The storage of the account at `address`.
    pub open spec fn storage_of(self, address: Seq<u8>) -> Map<nat, U256> {
        if self.storage.dom().contains(address) {
            self.storage[address]
        } else {
            Map::empty()
        }
    }

    /// The account at `address`, if there is one.
    pub open spec fn account(self, address: Seq<u8>) -> Option<Account> {
        if self.accounts.dom().contains(address) {
            Some(self.accounts[address])
        } else {
            None
        }
    }

    /// The recorded value of a slot, if there is one.
    pub open spec fn slot(self, address: Seq<u8>, slot: nat) -> Option<U256> {
        if self.storage_of(address).dom().contains(slot) {
            Some(self.storage_of(address)[slot])
        } else {
            None
        }
    }

    /// The state with the whole diff applied: a changed account is what the diff says, and every other
    /// one is as before.
    pub open spec fn apply(self, diffs: Map<Seq<u8>, AccountDiff>) -> WorldState {
        WorldState {
            accounts: Map::new(
                |address: Seq<u8>|
                    if diffs.dom().contains(address) {
                        diffs[address].info is Some
                    } else {
                        self.accounts.dom().contains(address)
                    },
                |address: Seq<u8>|
                    if diffs.dom().contains(address) {
                        overlay::provider_account(diffs[address].info->0)
                    } else {
                        self.accounts[address]
                    },
            ),
            storage: Map::new(
                |address: Seq<u8>|
                    diffs.dom().contains(address) || self.storage.dom().contains(address),
                |address: Seq<u8>|
                    if diffs.dom().contains(address) {
                        storage_after(self.storage_of(address), diffs[address])
                    } else {
                        self.storage[address]
                    },
            ),
        }
    }

    /// The state after the changes to one account are written into it.
    pub open spec fn write(self, address: Seq<u8>, diff: AccountDiff) -> WorldState {
        WorldState {
            accounts: match diff.info {
                Some(info) => self.accounts.insert(address, overlay::provider_account(info)),
                None => self.accounts.remove(address),
            },
            storage: self.storage.insert(address, storage_after(self.storage_of(address), diff)),
        }
    }

    /// The state after the changes to each account in `order` are written into it, one after the
    /// other.
    pub open spec fn write_all(
        self,
        diffs: Map<Seq<u8>, AccountDiff>,
        order: Seq<Seq<u8>>,
    ) -> WorldState
        decreases order.len(),
    {
        if order.len() == 0 {
            self
        } else {
            self.write_all(diffs, order.drop_last()).write(order.last(), diffs[order.last()])
        }
    }
}

/// The value of a slot whose record may be absent: an absent slot is zero.
pub open spec fn slot_value(recorded: Option<U256>) -> U256 {
    match recorded {
        Some(value) => value,
        None => bundle::zero_word(),
    }
}

/// What a read of an account through the overlay gives over the canonical state `canonical`.
pub open spec fn overlaid_account(
    diffs: Map<Seq<u8>, AccountDiff>,
    canonical: WorldState,
    address: Seq<u8>,
) -> Option<Account> {
    match overlay::account_in(diffs, address) {
        Some(served) => served,
        None => canonical.account(address),
    }
}

/// What a read of a slot through the overlay gives over the canonical state `canonical`.
pub open spec fn overlaid_slot(
    diffs: Map<Seq<u8>, AccountDiff>,
    canonical: WorldState,
    address: Seq<u8>,
    slot: nat,
) -> Option<U256> {
    match overlay::slot_in(diffs, address, slot) {
        Some(served) => Some(served),
        None => canonical.slot(address, slot),
    }
}

/// Reading through the overlay is reading the canonical state with the whole diff applied: every account
/// and every slot value is the one that the overlay serves.
pub proof fn overlay_reads_the_applied_diff(
    canonical: WorldState,
    diffs: Map<Seq<u8>, AccountDiff>,
    address: Seq<u8>,
    slot: nat,
)
    ensures
        overlaid_account(diffs, canonical, address) == canonical.apply(diffs).account(address),
        slot_value(overlaid_slot(diffs, canonical, address, slot)) == slot_value(
            canonical.apply(diffs).slot(address, slot),
        ),
{
}

/// Writing the changes to some accounts, one after the other, sets exactly those accounts.
proof fn write_all_sets_listed(
    canonical: WorldState,
    diffs: Map<Seq<u8>, AccountDiff>,
    order: Seq<Seq<u8>>,
    address: Seq<u8>,
)
    ensures
        ({
            let written = canonical.write_all(diffs, order);
            let expected = if order.contains(address) {
                canonical.write(address, diffs[address])
            } else {
                canonical
            };
            &&& written.account(address) == expected.account(address)
            &&& written.storage.dom().contains(address) == expected.storage.dom().contains(address)
            &&& written.storage_of(address) == expected.storage_of(address)
        }),
    decreases order.len(),
{
    if order.len() > 0 {
        let before = order.drop_last();
        write_all_sets_listed(canonical, diffs, before, address);
        if order.last() == address {
            assert(order[order.len() - 1] == address);
            let diff = diffs[address];
            let stored = canonical.storage_of(address);
            assert(storage_after(storage_after(stored, diff), diff) =~= storage_after(stored, diff));
        } else if order.contains(address) {
            let i = choose|i: int| 0 <= i < order.len() && order[i] == address;
            assert(before[i] == address);
        } else if before.contains(address) {
            let i = choose|i: int| 0 <= i < before.len() && before[i] == address;
            assert(order[i] == address);
        }
    }
}

/// The diff can be applied one account at a time, in any order: the result is the same state.
pub proof fn write_order_does_not_matter(
    canonical: WorldState,
    diffs: Map<Seq<u8>, AccountDiff>,
    order: Seq<Seq<u8>>,
)
    requires
        forall|a: Seq<u8>| diffs.dom().contains(a) <==> order.contains(a),
    ensures
        canonical.write_all(diffs, order) == canonical.apply(diffs),
{
    let written = canonical.write_all(diffs, order);
    let applied = canonical.apply(diffs);
    assert forall|a: Seq<u8>|
        #![trigger written.accounts.dom().contains(a)]
        #![trigger applied.accounts.dom().contains(a)]
        written.accounts.dom().contains(a) == applied.accounts.dom().contains(a)
        && (written.accounts.dom().contains(a) ==> written.accounts[a] == applied.accounts[a]) by {
        write_all_sets_listed(canonical, diffs, order, a);
        assert(written.account(a) == applied.account(a));
    }
    assert(written.accounts =~= applied.accounts);
    assert forall|a: Seq<u8>|
        #![trigger written.storage.dom().contains(a)]
        #![trigger applied.storage.dom().contains(a)]
        written.storage.dom().contains(a) == applied.storage.dom().contains(a)
        && (written.storage.dom().contains(a) ==> written.storage[a] == applied.storage[a]) by {
        write_all_sets_listed(canonical, diffs, order, a);
        assert(written.storage_of(a) == applied.storage_of(a));
    }
    assert(written.storage =~= applied.storage);
}

/// An account read through an overlay is an account of the canonical state with the whole diff
/// applied, wherever the provider beneath answers from the canonical state.
pub proof fn account_answers_are_applied<P: EvmStateProvider>(
    overlay: PendingBundleOverlay<P>,
    canonical: WorldState,
    address: Address,
    account: Result<Option<Account>, P::Error>,
)
    requires
        forall|answer: Result<Option<Account>, P::Error>| #[trigger]
            call_ensures(P::basic_account, (&overlay.canonical(), &address), answer) ==> answer
                == Ok::<Option<Account>, P::Error>(canonical.account(address@)),
        call_ensures(PendingBundleOverlay::<P>::basic_account, (&overlay, &address), account),
    ensures
        account == Ok::<Option<Account>, P::Error>(
            canonical.apply(overlay.diffs()).account(address@),
        ),
{
    overlay_reads_the_applied_diff(canonical, overlay.diffs(), address@, 0);
}

/// A slot read through an overlay has its value in the canonical state with the whole diff applied,
/// wherever the provider beneath answers from the canonical state.
pub proof fn storage_answers_are_applied<P: EvmStateProvider>(
    overlay: PendingBundleOverlay<P>,
    canonical: WorldState,
    account: Address,
    key: StorageKey,
    value: Result<Option<StorageValue>, P::Error>,
)
    requires
        forall|answer: Result<Option<StorageValue>, P::Error>| #[trigger]
            call_ensures(P::storage, (&overlay.canonical(), account, key), answer) ==> answer == Ok::<
                Option<StorageValue>,
                P::Error,
            >(canonical.slot(account@, types::be_value(key@))),
        call_ensures(PendingBundleOverlay::<P>::storage, (&overlay, account, key), value),
    ensures
        value matches Ok(recorded) && slot_value(recorded) == slot_value(
            canonical.apply(overlay.diffs()).slot(account@, types::be_value(key@)),
        ),
{
    overlay_reads_the_applied_diff(canonical, overlay.diffs(), account@, types::be_value(key@));
}

/// The code with the given hash among `codes`, if it is one of them.
pub open spec fn code_in(codes: Map<Seq<u8>, Bytecode>, code_hash: Seq<u8>) -> Option<Bytecode> {
    if codes.dom().contains(code_hash) {
        Some(codes[code_hash])
    } else {
        None
    }
}

/// A code read through an overlay is one of the canonical codes with the created contracts added,
/// wherever the provider beneath answers from the canonical codes.
pub proof fn code_answers_are_applied<P: EvmStateProvider>(
    overlay: PendingBundleOverlay<P>,
    canonical: Map<Seq<u8>, Bytecode>,
    code_hash: B256,
    code: Result<Option<Bytecode>, P::Error>,
)
    requires
        forall|answer: Result<Option<Bytecode>, P::Error>| #[trigger]
            call_ensures(P::bytecode_by_hash, (&overlay.canonical(), &code_hash), answer) ==> answer
                == Ok::<Option<Bytecode>, P::Error>(code_in(canonical, code_hash@)),
        call_ensures(PendingBundleOverlay::<P>::bytecode_by_hash, (&overlay, &code_hash), code),
    ensures
        code == Ok::<Option<Bytecode>, P::Error>(
            code_in(canonical.union_prefer_right(overlay.contracts()), code_hash@),
        ),
{
}

/// A diff that changes nothing is invisible: every read is left to the canonical state.
pub proof fn empty_diff_is_transparent(address: Seq<u8>, slot: nat)
    ensures
        overlay::account_in(Map::empty(), address) is None,
        overlay::slot_in(Map::empty(), address, slot) is None,
{
}

/// A read depends on the changes to the account it is about and on no other part of the diff.
pub proof fn reads_are_local(
    a: Map<Seq<u8>, AccountDiff>,
    b: Map<Seq<u8>, AccountDiff>,
    address: Seq<u8>,
    slot: nat,
)
    requires
        a.dom().contains(address) <==> b.dom().contains(address),
        a.dom().contains(address) ==> a[address] == b[address],
    ensures
        overlay::account_in(a, address) == overlay::account_in(b, address),
        overlay::slot_in(a, address, slot) == overlay::slot_in(b, address, slot),
{
}

/// No slot of an account whose storage the diff knows is left to the canonical state, and the slots
/// that the diff does not hold are zero.
pub proof fn known_storage_hides_canonical(
    diffs: Map<Seq<u8>, AccountDiff>,
    address: Seq<u8>,
    slot: nat,
)
    requires
        diffs.dom().contains(address),
        diffs[address].storage_known,
    ensures
        overlay::slot_in(diffs, address, slot) is Some,
        !diffs[address].storage.dom().contains(slot) ==> overlay::slot_in(diffs, address, slot)
            == Some(bundle::zero_word()),
{
}

/// Overlays stack: what an overlay over an overlay answers for an account is what the upper diff
/// says, then what the lower diff says, then what the canonical state answers.
pub proof fn overlays_stack<P: EvmStateProvider>(
    upper: PendingBundleOverlay<PendingBundleOverlay<P>>,
    address: Address,
    account: Result<Option<Account>, P::Error>,
)
    requires
        call_ensures(
            PendingBundleOverlay::<PendingBundleOverlay<P>>::basic_account,
            (&upper, &address),
            account,
        ),
    ensures
        overlay::account_in(upper.diffs(), address@) matches Some(served) ==> account == Ok::<
            Option<Account>,
            P::Error,
        >(served),
        overlay::account_in(upper.diffs(), address@) is None ==> {
            let lower = upper.canonical();
            &&& overlay::account_in(lower.diffs(), address@) matches Some(served) ==> account == Ok::<
                Option<Account>,
                P::Error,
            >(served)
            &&& overlay::account_in(lower.diffs(), address@) is None
                ==> call_ensures(P::basic_account, (&lower.canonical(), &address), account)
        },
{
}

/// Overlays stack for storage as they do for accounts.
pub proof fn overlays_stack_for_storage<P: EvmStateProvider>(
    upper: PendingBundleOverlay<PendingBundleOverlay<P>>,
    account: Address,
    key: StorageKey,
    value: Result<Option<StorageValue>, P::Error>,
)
    requires
        call_ensures(
            PendingBundleOverlay::<PendingBundleOverlay<P>>::storage,
            (&upper, account, key),
            value,
        ),
    ensures
        overlay::slot_in(upper.diffs(), account@, types::be_value(key@)) matches Some(served)
            ==> value == Ok::<Option<StorageValue>, P::Error>(Some(served)),
        overlay::slot_in(upper.diffs(), account@, types::be_value(key@)) is None ==> {
            let lower = upper.canonical();
            &&& overlay::slot_in(lower.diffs(), account@, types::be_value(key@)) matches Some(served)
                ==> value == Ok::<Option<StorageValue>, P::Error>(Some(served))
            &&& overlay::slot_in(lower.diffs(), account@, types::be_value(key@)) is None
                ==> call_ensures(P::storage, (&lower.canonical(), account, key), value)
        },
{
}

} // verus!
