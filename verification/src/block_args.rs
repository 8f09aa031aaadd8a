//! The block context handed to a VM run, and the ways resolving it can fail.

use vstd::prelude::*;
use crate::block_id::{BlockId, BlockNumber, MiniblockNumber};
use crate::resolution::ResolvedL1Batch;

verus! {

/// Stands for a storage call that did not complete. The cause stays with the
/// caller that made the call; the library only needs to know that there is no
/// answer.
#[derive(Clone, Copy, Debug, PartialEq, Eq, Structural)]
pub struct StorageError;

/// The step at which storage failed or turned out to be inconsistent.
#[derive(Clone, Copy, Debug, PartialEq, Eq)]
pub enum DatabaseFault {
    /// The call that resolves this block reference failed.
    ResolveBlockId(BlockId),
    /// Storage knows of no pending block, though one always exists once
    /// genesis is recorded.
    PendingBlockMissing,
    /// The call that finds the L1 batch of this miniblock failed.
    ResolveL1Batch(MiniblockNumber),
    /// The call that fetches the timestamp of this batch failed.
    GetL1BatchTimestamp(ResolvedL1Batch),
    /// A resolved, sealed block has no batch timestamp.
    L1BatchTimestampMissing,
}

/// Why a block reference did not resolve.
#[derive(Clone, Copy, Debug, PartialEq, Eq)]
pub enum BlockArgsError {
    /// Block is pruned; the first retained block is attached.
    Pruned(MiniblockNumber),
    /// Block is missing, but can appear in the future.
    Missing,
    /// Storage failed or is inconsistent.
    Database(DatabaseFault),
}

/// What a [`BlockArgs`] holds.
pub struct BlockArgsView {
    /// The reference the caller gave.
    pub block_id: BlockId,
    /// The miniblock it resolved to.
    pub resolved_block_number: MiniblockNumber,
    /// Timestamp of the batch that holds the block, in seconds.
    pub l1_batch_timestamp_s: Option<u64>,
}

impl BlockArgsView {
    /// The batch timestamp is absent exactly for the pending block, whose
    /// batch is not sealed.
    pub open spec fn consistent(self) -> bool {
        self.l1_batch_timestamp_s is None <==> self.block_id.is_pending()
    }
}

/// Information about a block provided to VM.
#[derive(Debug, Clone, Copy)]
pub struct BlockArgs {
    block_id: BlockId,
    resolved_block_number: MiniblockNumber,
    l1_batch_timestamp_s: Option<u64>,
}

impl View for BlockArgs {
    type V = BlockArgsView;

    closed spec fn view(&self) -> BlockArgsView {
        BlockArgsView {
            block_id: self.block_id,
            resolved_block_number: self.resolved_block_number,
            l1_batch_timestamp_s: self.l1_batch_timestamp_s,
        }
    }
}

/// The reference that stands for the pending block.
pub open spec fn pending_id() -> BlockId {
    BlockId::Number(BlockNumber::Pending)
}

/// What the answer to "which miniblock is pending?" means: the number, or the
/// fault that the missing answer amounts to.
pub open spec fn pending_state(
    resolved: Result<Option<MiniblockNumber>, StorageError>,
) -> Result<(BlockId, MiniblockNumber), DatabaseFault> {
    match resolved {
        Ok(Some(number)) => Ok((pending_id(), number)),
        Ok(None) => Err(DatabaseFault::PendingBlockMissing),
        Err(_) => Err(DatabaseFault::ResolveBlockId(pending_id())),
    }
}

/// Reads the pending block's number out of storage's answer.
pub fn get_pending_state(resolved: Result<Option<MiniblockNumber>, StorageError>) -> (r: Result<
    (BlockId, MiniblockNumber),
    DatabaseFault,
>)
    ensures
        r == pending_state(resolved),
{
    let block_id = BlockId::Number(BlockNumber::Pending);
    match resolved {
        Ok(Some(resolved_block_number)) => Ok((block_id, resolved_block_number)),
        Ok(None) => Err(DatabaseFault::PendingBlockMissing),
        Err(_) => Err(DatabaseFault::ResolveBlockId(block_id)),
    }
}

impl BlockArgs {
    #[verifier::type_invariant]
    spec fn well_formed(self) -> bool {
        self@.consistent()
    }

    /// Block context for the pending block, from storage's answer to
    /// "which miniblock is pending?". Succeeds whenever storage answers with
    /// a number, and never carries a batch timestamp.
    pub fn pending(resolved: Result<Option<MiniblockNumber>, StorageError>) -> (r: Result<
        Self,
        DatabaseFault,
    >)
        ensures
            r is Ok <==> resolved matches Ok(Some(_)),
            r matches Ok(args) ==> args@ == (BlockArgsView {
                block_id: pending_id(),
                resolved_block_number: resolved->Ok_0->Some_0,
                l1_batch_timestamp_s: None,
            }),
            r matches Err(fault) ==> pending_state(resolved) == Err::<
                (BlockId, MiniblockNumber),
                DatabaseFault,
            >(fault),
    {
        match get_pending_state(resolved) {
            Ok((block_id, resolved_block_number)) => Ok(
                BlockArgs { block_id, resolved_block_number, l1_batch_timestamp_s: None },
            ),
            Err(fault) => Err(fault),
        }
    }

    /// Puts a finished resolution together.
    pub(crate) fn from_parts(
        block_id: BlockId,
        resolved_block_number: MiniblockNumber,
        l1_batch_timestamp_s: Option<u64>,
    ) -> (args: Self)
        requires
            l1_batch_timestamp_s is None <==> block_id.is_pending(),
        ensures
            args@ == (BlockArgsView { block_id, resolved_block_number, l1_batch_timestamp_s }),
    {
        BlockArgs { block_id, resolved_block_number, l1_batch_timestamp_s }
    }

    /// The reference this context was resolved from.
    pub fn block_id(&self) -> (id: BlockId)
        ensures
            id == self@.block_id,
    {
        self.block_id
    }

    /// The miniblock the reference resolved to.
    pub fn resolved_block_number(&self) -> (number: MiniblockNumber)
        ensures
            number == self@.resolved_block_number,
    {
        self.resolved_block_number
    }

    /// Timestamp of the batch holding the block; `None` exactly for the
    /// pending block.
    pub fn l1_batch_timestamp(&self) -> (timestamp: Option<u64>)
        ensures
            timestamp == self@.l1_batch_timestamp_s,
            timestamp is None <==> self@.block_id.is_pending(),
    {
        proof {
            use_type_invariant(self);
        }
        self.l1_batch_timestamp_s
    }

    /// Whether the reference moves with the chain's head, so that what it
    /// resolved to must not be cached as if it were fixed.
    pub fn resolves_to_latest_sealed_miniblock(&self) -> (r: bool)
        ensures
            r == self@.block_id.follows_head(),
    {
        match self.block_id {
            BlockId::Number(BlockNumber::Pending) => true,
            BlockId::Number(BlockNumber::Latest) => true,
            BlockId::Number(BlockNumber::Committed) => true,
            _ => false,
        }
    }
}

} // verus!
