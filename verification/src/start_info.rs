//! The oldest block and batch that local storage still holds.

use vstd::prelude::*;
use crate::block_id::{BlockId, BlockNumber, L1BatchNumber, MiniblockNumber};

verus! {

/// The point at which the node was restored from a snapshot. Everything at or
/// before it is absent from local storage.
#[derive(Clone, Copy, Debug, PartialEq, Eq, Structural)]
pub struct SnapshotRecovery {
    /// Last L1 batch covered by the snapshot.
    pub l1_batch_number: L1BatchNumber,
    /// Last miniblock covered by the snapshot.
    pub miniblock_number: MiniblockNumber,
}

/// Information about first L1 batch / miniblock in the node storage.
#[derive(Clone, Copy, Debug, PartialEq, Eq, Structural)]
pub struct BlockStartInfo {
    /// Number of the first locally available miniblock.
    pub first_miniblock: MiniblockNumber,
    /// Number of the first locally available L1 batch.
    pub first_l1_batch: L1BatchNumber,
}

impl BlockStartInfo {
    /// What storage retains after the given recovery: everything if there was
    /// none, else what follows the recovered point.
    pub open spec fn after(snapshot_recovery: Option<SnapshotRecovery>) -> BlockStartInfo {
        match snapshot_recovery {
            None => BlockStartInfo {
                first_miniblock: MiniblockNumber(0),
                first_l1_batch: L1BatchNumber(0),
            },
            Some(recovery) => BlockStartInfo {
                first_miniblock: MiniblockNumber((recovery.miniblock_number.0 + 1) as u32),
                first_l1_batch: L1BatchNumber((recovery.l1_batch_number.0 + 1) as u32),
            },
        }
    }

    /// Whether `block` refers to data that pruning has removed: a number below
    /// the first retained miniblock, or `earliest` once anything was pruned.
    pub open spec fn is_pruned(self, block: BlockId) -> bool {
        match block {
            BlockId::Number(BlockNumber::Number(number)) => number < self.first_miniblock.0,
            BlockId::Number(BlockNumber::Earliest) => self.first_miniblock.0 > 0,
            _ => false,
        }
    }

    /// Derives the retention boundary from the most recent snapshot recovery,
    /// as read from storage by the caller.
    pub fn new(snapshot_recovery: Option<SnapshotRecovery>) -> (info: Self)
        requires
            snapshot_recovery matches Some(recovery) ==> recovery.miniblock_number.0 < u32::MAX
                && recovery.l1_batch_number.0 < u32::MAX,
        ensures
            info == Self::after(snapshot_recovery),
            snapshot_recovery is None ==> info.first_miniblock.0 == 0 && info.first_l1_batch.0
                == 0,
            snapshot_recovery matches Some(recovery) ==> info.first_miniblock.0
                == recovery.miniblock_number.0 + 1 && info.first_l1_batch.0
                == recovery.l1_batch_number.0 + 1,
    {
        match snapshot_recovery {
            None => BlockStartInfo {
                first_miniblock: MiniblockNumber(0),
                first_l1_batch: L1BatchNumber(0),
            },
            Some(recovery) => BlockStartInfo {
                first_miniblock: MiniblockNumber(recovery.miniblock_number.0 + 1),
                first_l1_batch: L1BatchNumber(recovery.l1_batch_number.0 + 1),
            },
        }
    }

    /// Checks whether a block with the specified ID is pruned and returns an error if it is.
    /// The `Err` variant wraps the first non-pruned miniblock.
    pub fn ensure_not_pruned_block(&self, block: BlockId) -> (r: Result<(), MiniblockNumber>)
        ensures
            r is Err <==> self.is_pruned(block),
            r matches Err(first) ==> first == self.first_miniblock,
    {
        match block {
            BlockId::Number(BlockNumber::Number(number)) => {
                if number < self.first_miniblock.0 as u64 {
                    Err(self.first_miniblock)
                } else {
                    Ok(())
                }
            },
            BlockId::Number(BlockNumber::Earliest) => {
                if self.first_miniblock.0 > 0 {
                    Err(self.first_miniblock)
                } else {
                    Ok(())
                }
            },
            _ => Ok(()),
        }
    }
}

} // verus!
