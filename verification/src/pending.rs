//! The flashblocks received on top of a canonical block.

use revm::database::BundleState;
use std::sync::Arc;
use vstd::prelude::*;

use crate::bundle::share_bundle;
use crate::types::BlockNumber;

verus! {

/// The diff as it stood after one flashblock.
#[derive(Debug)]
struct Snapshot {
    block_number: BlockNumber,
    index: u64,
    bundle: Arc<BundleState>,
}

/// The pending blocks: the diff after each flashblock received so far, every one of them relative to
/// the same canonical block.
#[derive(Debug)]
pub struct PendingBlocks {
    canonical_block_number: BlockNumber,
    snapshots: Vec<Snapshot>,
}

/// The diff of the newest snapshot with the given coordinates.
spec fn newest(snapshots: Seq<Snapshot>, block_number: BlockNumber, index: u64) -> Option<
    BundleState,
>
    decreases snapshots.len(),
{
    if snapshots.len() == 0 {
        None
    } else if snapshots.last().block_number == block_number && snapshots.last().index == index {
        Some(*snapshots.last().bundle)
    } else {
        newest(snapshots.drop_last(), block_number, index)
    }
}

impl PendingBlocks {
    /// At least one flashblock was received.
    #[verifier::type_invariant]
    spec fn started(self) -> bool {
        self.snapshots@.len() > 0
    }

    /// The number of the canonical block that every diff is relative to.
    pub closed spec fn parent_number(&self) -> BlockNumber {
        self.canonical_block_number
    }

    /// The diff after the newest flashblock.
    pub closed spec fn latest(&self) -> BundleState {
        *self.snapshots@.last().bundle
    }

    /// The diff after the flashblock with the given coordinates, if it is retained.
    pub closed spec fn snapshot_at(&self, block_number: BlockNumber, index: u64) -> Option<
        BundleState,
    > {
        newest(self.snapshots@, block_number, index)
    }

    /// Starts with the flashblock `index` of block `block_number`, whose diff over the canonical
    /// block is `bundle`.
    pub fn new(
        canonical_block_number: BlockNumber,
        block_number: BlockNumber,
        index: u64,
        bundle: Arc<BundleState>,
    ) -> (pending: Self)
        ensures
            pending.parent_number() == canonical_block_number,
            pending.latest() == *bundle,
            forall|n: BlockNumber, i: u64| #[trigger]
                pending.snapshot_at(n, i) == (if n == block_number && i == index {
                    Some(*bundle)
                } else {
                    None
                }),
    {
        let snapshot = Snapshot { block_number, index, bundle };
        let snapshots = vec![snapshot];
        assert(snapshots@.drop_last() =~= Seq::empty());
        proof {
            reveal_with_fuel(newest, 2);
        }
        PendingBlocks { canonical_block_number, snapshots }
    }

    /// Adds the diff after a further flashblock. The snapshots taken before are retained.
    pub fn with_snapshot(
        self,
        block_number: BlockNumber,
        index: u64,
        bundle: Arc<BundleState>,
    ) -> (pending: Self)
        ensures
            pending.parent_number() == self.parent_number(),
            pending.latest() == *bundle,
            forall|n: BlockNumber, i: u64| #[trigger]
                pending.snapshot_at(n, i) == (if n == block_number && i == index {
                    Some(*bundle)
                } else {
                    self.snapshot_at(n, i)
                }),
    {
        let mut snapshots = self.snapshots;
        snapshots.push(Snapshot { block_number, index, bundle });
        assert(snapshots@.drop_last() =~= self.snapshots@);
        PendingBlocks { canonical_block_number: self.canonical_block_number, snapshots }
    }

    /// The number of the canonical block that the diffs are built on.
    pub fn canonical_block_number(&self) -> (number: BlockNumber)
        ensures
            number == self.parent_number(),
    {
        self.canonical_block_number
    }

    /// The diff after the newest flashblock.
    pub fn latest_bundle_state(&self) -> (bundle: Arc<BundleState>)
        ensures
            *bundle == self.latest(),
    {
        proof {
            use_type_invariant(self);
        }
        share_bundle(&self.snapshots[self.snapshots.len() - 1].bundle)
    }

    /// The diff after the flashblock `index` of block `block_number`, if it is retained.
    pub fn get_historical_bundle_state_at(&self, block_number: BlockNumber, index: u64) -> (bundle:
        Option<Arc<BundleState>>)
        ensures
            bundle is Some <==> self.snapshot_at(block_number, index) is Some,
            bundle matches Some(found) ==> Some(*found) == self.snapshot_at(block_number, index),
    {
        let mut left: usize = self.snapshots.len();
        assert(self.snapshots@.take(left as int) =~= self.snapshots@);
        while left > 0
            invariant
                left <= self.snapshots@.len(),
                newest(self.snapshots@.take(left as int), block_number, index) == newest(
                    self.snapshots@,
                    block_number,
                    index,
                ),
            decreases left,
        {
            let snapshot = &self.snapshots[left - 1];
            assert(self.snapshots@.take(left as int).drop_last() =~= self.snapshots@.take(left - 1));
            if snapshot.block_number == block_number && snapshot.index == index {
                return Some(share_bundle(&snapshot.bundle));
            }
            left = left - 1;
        }
        None
    }
}

} // verus!
