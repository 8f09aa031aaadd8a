//! Resolving a block reference against storage, one question at a time.
//!
//! The library cannot talk to storage itself. A [`Resolution`] therefore holds
//! where resolving stands: either the next question for storage, or the
//! outcome. The caller puts each question to storage and passes the answer to
//! [`Resolution::advance`] until [`Resolution::finish`] yields a result.

use vstd::prelude::*;
use crate::block_args::{
    pending_id, pending_state, get_pending_state, BlockArgs, BlockArgsError, BlockArgsView,
    DatabaseFault, StorageError,
};
use crate::block_id::{BlockId, BlockNumber, L1BatchNumber, MiniblockNumber};
use crate::start_info::BlockStartInfo;

verus! {

/// The L1 batch of a miniblock as storage reports it.
#[derive(Clone, Copy, Debug, PartialEq, Eq, Structural)]
pub struct ResolvedL1Batch {
    /// The batch that holds the miniblock, once that batch is sealed.
    pub miniblock_l1_batch: Option<L1BatchNumber>,
    /// The batch that is being built.
    pub pending_l1_batch: L1BatchNumber,
}

/// A question for storage.
#[derive(Clone, Copy, Debug, PartialEq, Eq)]
pub enum StorageQuery {
    /// Which miniblock does this reference denote?
    BlockNumber(BlockId),
    /// Which L1 batch holds this miniblock?
    L1Batch(MiniblockNumber),
    /// At which timestamp is this batch expected to be sealed?
    L1BatchTimestamp(ResolvedL1Batch),
}

/// Storage's answer to a [`StorageQuery`].
#[derive(Clone, Copy, Debug, PartialEq, Eq, Structural)]
pub enum StorageReply {
    /// The miniblock a reference denotes, if storage holds one.
    BlockNumber(Option<MiniblockNumber>),
    /// The L1 batch of a miniblock.
    L1Batch(ResolvedL1Batch),
    /// The expected timestamp of a batch, if storage has one.
    L1BatchTimestamp(Option<u64>),
    /// The call failed.
    Failed,
}

/// Where resolving a reference stands.
#[derive(Clone, Copy, Debug, PartialEq, Eq)]
pub enum Stage {
    /// Waiting to learn the number of the pending block.
    AwaitPendingNumber,
    /// Waiting to learn which miniblock `block_id` denotes.
    AwaitBlockNumber { block_id: BlockId },
    /// Waiting to learn which batch holds the resolved miniblock.
    AwaitL1Batch { block_id: BlockId, resolved_block_number: MiniblockNumber },
    /// Waiting for the timestamp of that batch.
    AwaitL1BatchTimestamp {
        block_id: BlockId,
        resolved_block_number: MiniblockNumber,
        l1_batch: ResolvedL1Batch,
    },
    /// The reference is resolved.
    Resolved {
        block_id: BlockId,
        resolved_block_number: MiniblockNumber,
        l1_batch_timestamp_s: Option<u64>,
    },
    /// The reference cannot be resolved.
    Rejected(BlockArgsError),
}

impl Stage {
    /// The stage at which resolving `block_id` begins. Pruned references are
    /// rejected before storage is asked anything.
    pub open spec fn start(block_id: BlockId, start_info: BlockStartInfo) -> Stage {
        if start_info.is_pruned(block_id) {
            Stage::Rejected(BlockArgsError::Pruned(start_info.first_miniblock))
        } else if block_id.is_pending() {
            Stage::AwaitPendingNumber
        } else {
            Stage::AwaitBlockNumber { block_id }
        }
    }

    /// The question that this stage waits on, if it waits.
    pub open spec fn query(self) -> Option<StorageQuery> {
        match self {
            Stage::AwaitPendingNumber => Some(StorageQuery::BlockNumber(pending_id())),
            Stage::AwaitBlockNumber { block_id } => Some(StorageQuery::BlockNumber(block_id)),
            Stage::AwaitL1Batch { resolved_block_number, .. } => Some(
                StorageQuery::L1Batch(resolved_block_number),
            ),
            Stage::AwaitL1BatchTimestamp { l1_batch, .. } => Some(
                StorageQuery::L1BatchTimestamp(l1_batch),
            ),
            Stage::Resolved { .. } => None,
            Stage::Rejected(_) => None,
        }
    }

    /// Whether resolving has come to an end.
    pub open spec fn is_final(self) -> bool {
        self is Resolved || self is Rejected
    }

    /// Whether `reply` is an answer to the question of this stage.
    pub open spec fn accepts(self, reply: StorageReply) -> bool {
        match self {
            Stage::AwaitPendingNumber | Stage::AwaitBlockNumber { .. } => reply is BlockNumber
                || reply is Failed,
            Stage::AwaitL1Batch { .. } => reply is L1Batch || reply is Failed,
            Stage::AwaitL1BatchTimestamp { .. } => reply is L1BatchTimestamp || reply is Failed,
            Stage::Resolved { .. } => false,
            Stage::Rejected(_) => false,
        }
    }

    /// The stage that follows when storage answers `reply`. An answer to
    /// another question than the one asked changes nothing.
    pub open spec fn next(self, reply: StorageReply) -> Stage {
        match self {
            Stage::AwaitPendingNumber => match reply {
                StorageReply::BlockNumber(number) => Self::after_pending(Ok(number)),
                StorageReply::Failed => Self::after_pending(Err(StorageError)),
                _ => self,
            },
            Stage::AwaitBlockNumber { block_id } => match reply {
                StorageReply::BlockNumber(Some(resolved_block_number)) => Stage::AwaitL1Batch {
                    block_id,
                    resolved_block_number,
                },
                StorageReply::BlockNumber(None) => Stage::Rejected(BlockArgsError::Missing),
                StorageReply::Failed => Stage::Rejected(
                    BlockArgsError::Database(DatabaseFault::ResolveBlockId(block_id)),
                ),
                _ => self,
            },
            Stage::AwaitL1Batch { block_id, resolved_block_number } => match reply {
                StorageReply::L1Batch(l1_batch) => Stage::AwaitL1BatchTimestamp {
                    block_id,
                    resolved_block_number,
                    l1_batch,
                },
                StorageReply::Failed => Stage::Rejected(
                    BlockArgsError::Database(DatabaseFault::ResolveL1Batch(resolved_block_number)),
                ),
                _ => self,
            },
            Stage::AwaitL1BatchTimestamp { block_id, resolved_block_number, l1_batch } => match reply {
                StorageReply::L1BatchTimestamp(Some(timestamp)) => Stage::Resolved {
                    block_id,
                    resolved_block_number,
                    l1_batch_timestamp_s: Some(timestamp),
                },
                StorageReply::L1BatchTimestamp(None) => Stage::Rejected(
                    BlockArgsError::Database(DatabaseFault::L1BatchTimestampMissing),
                ),
                StorageReply::Failed => Stage::Rejected(
                    BlockArgsError::Database(DatabaseFault::GetL1BatchTimestamp(l1_batch)),
                ),
                _ => self,
            },
            Stage::Resolved { .. } => self,
            Stage::Rejected(_) => self,
        }
    }

    /// The stage that follows the answer about the pending block.
    pub open spec fn after_pending(
        resolved: Result<Option<MiniblockNumber>, StorageError>,
    ) -> Stage {
        match pending_state(resolved) {
            Ok((block_id, resolved_block_number)) => Stage::Resolved {
                block_id,
                resolved_block_number,
                l1_batch_timestamp_s: None,
            },
            Err(fault) => Stage::Rejected(BlockArgsError::Database(fault)),
        }
    }

    /// What a stage must satisfy to have come from [`Stage::start`] by
    /// [`Stage::next`]: the pending block is resolved apart from the others,
    /// and only it ends without a batch timestamp.
    pub open spec fn consistent(self) -> bool {
        match self {
            Stage::AwaitPendingNumber => true,
            Stage::AwaitBlockNumber { block_id } => !block_id.is_pending(),
            Stage::AwaitL1Batch { block_id, .. } => !block_id.is_pending(),
            Stage::AwaitL1BatchTimestamp { block_id, .. } => !block_id.is_pending(),
            Stage::Resolved { block_id, l1_batch_timestamp_s, .. } => l1_batch_timestamp_s is None
                <==> block_id.is_pending(),
            Stage::Rejected(_) => true,
        }
    }

    /// The outcome that a final stage stands for.
    pub open spec fn outcome(self) -> Option<Result<BlockArgsView, BlockArgsError>> {
        match self {
            Stage::Resolved { block_id, resolved_block_number, l1_batch_timestamp_s } => Some(
                Ok(BlockArgsView { block_id, resolved_block_number, l1_batch_timestamp_s }),
            ),
            Stage::Rejected(error) => Some(Err(error)),
            _ => None,
        }
    }
}

/// A resolution under way: the next question for storage, or the outcome.
#[derive(Clone, Copy, Debug)]
pub struct Resolution {
    stage: Stage,
}

impl View for Resolution {
    type V = Stage;

    closed spec fn view(&self) -> Stage {
        self.stage
    }
}

/// Tells whether a reference is the `pending` tag.
fn is_pending_id(block_id: BlockId) -> (r: bool)
    ensures
        r == block_id.is_pending(),
{
    match block_id {
        BlockId::Number(BlockNumber::Pending) => true,
        _ => false,
    }
}

impl Resolution {
    #[verifier::type_invariant]
    spec fn well_formed(self) -> bool {
        self.stage.consistent()
    }

    /// Begins resolving `block_id`.
    pub(crate) fn start(block_id: BlockId, start_info: BlockStartInfo) -> (resolution: Self)
        ensures
            resolution@ == Stage::start(block_id, start_info),
    {
        // The reference must be present in storage or able to appear there
        // later. Resolved for a pruned block, the batch timestamp would be
        // meaningless.
        let stage = match start_info.ensure_not_pruned_block(block_id) {
            Err(first_miniblock) => Stage::Rejected(BlockArgsError::Pruned(first_miniblock)),
            Ok(()) => {
                if is_pending_id(block_id) {
                    Stage::AwaitPendingNumber
                } else {
                    Stage::AwaitBlockNumber { block_id }
                }
            },
        };
        Resolution { stage }
    }

    /// The question to put to storage next, or `None` once resolving is over.
    pub fn query(&self) -> (query: Option<StorageQuery>)
        ensures
            query == self@.query(),
            query is None <==> self@.is_final(),
    {
        match self.stage {
            Stage::AwaitPendingNumber => Some(
                StorageQuery::BlockNumber(BlockId::Number(BlockNumber::Pending)),
            ),
            Stage::AwaitBlockNumber { block_id } => Some(StorageQuery::BlockNumber(block_id)),
            Stage::AwaitL1Batch { resolved_block_number, .. } => Some(
                StorageQuery::L1Batch(resolved_block_number),
            ),
            Stage::AwaitL1BatchTimestamp { l1_batch, .. } => Some(
                StorageQuery::L1BatchTimestamp(l1_batch),
            ),
            Stage::Resolved { .. } => None,
            Stage::Rejected(_) => None,
        }
    }

    /// Takes storage's answer to the pending question and moves on.
    pub fn advance(self, reply: StorageReply) -> (next: Self)
        ensures
            next@ == self@.next(reply),
    {
        proof {
            use_type_invariant(&self);
        }
        let stage = match self.stage {
            Stage::AwaitPendingNumber => {
                let resolved = match reply {
                    StorageReply::BlockNumber(number) => Some(Ok(number)),
                    StorageReply::Failed => Some(Err(StorageError)),
                    _ => None,
                };
                match resolved {
                    Some(resolved) => match get_pending_state(resolved) {
                        Ok((block_id, resolved_block_number)) => Stage::Resolved {
                            block_id,
                            resolved_block_number,
                            l1_batch_timestamp_s: None,
                        },
                        Err(fault) => Stage::Rejected(BlockArgsError::Database(fault)),
                    },
                    None => self.stage,
                }
            },
            Stage::AwaitBlockNumber { block_id } => match reply {
                StorageReply::BlockNumber(Some(resolved_block_number)) => Stage::AwaitL1Batch {
                    block_id,
                    resolved_block_number,
                },
                StorageReply::BlockNumber(None) => Stage::Rejected(BlockArgsError::Missing),
                StorageReply::Failed => Stage::Rejected(
                    BlockArgsError::Database(DatabaseFault::ResolveBlockId(block_id)),
                ),
                _ => self.stage,
            },
            Stage::AwaitL1Batch { block_id, resolved_block_number } => match reply {
                StorageReply::L1Batch(l1_batch) => Stage::AwaitL1BatchTimestamp {
                    block_id,
                    resolved_block_number,
                    l1_batch,
                },
                StorageReply::Failed => Stage::Rejected(
                    BlockArgsError::Database(DatabaseFault::ResolveL1Batch(resolved_block_number)),
                ),
                _ => self.stage,
            },
            Stage::AwaitL1BatchTimestamp { block_id, resolved_block_number, l1_batch } => match reply {
                StorageReply::L1BatchTimestamp(Some(timestamp)) => Stage::Resolved {
                    block_id,
                    resolved_block_number,
                    l1_batch_timestamp_s: Some(timestamp),
                },
                StorageReply::L1BatchTimestamp(None) => Stage::Rejected(
                    BlockArgsError::Database(DatabaseFault::L1BatchTimestampMissing),
                ),
                StorageReply::Failed => Stage::Rejected(
                    BlockArgsError::Database(DatabaseFault::GetL1BatchTimestamp(l1_batch)),
                ),
                _ => self.stage,
            },
            Stage::Resolved { .. } => self.stage,
            Stage::Rejected(_) => self.stage,
        };
        Resolution { stage }
    }

    /// The outcome, once resolving is over; `None` while a question is open.
    pub fn finish(self) -> (outcome: Option<Result<BlockArgs, BlockArgsError>>)
        ensures
            outcome is Some <==> self@.is_final(),
            outcome matches Some(Ok(args)) ==> self@.outcome() == Some(
                Ok::<BlockArgsView, BlockArgsError>(args@),
            ),
            outcome matches Some(Err(error)) ==> self@.outcome() == Some(
                Err::<BlockArgsView, BlockArgsError>(error),
            ),
    {
        proof {
            use_type_invariant(&self);
        }
        match self.stage {
            Stage::Resolved { block_id, resolved_block_number, l1_batch_timestamp_s } => Some(
                Ok(BlockArgs::from_parts(block_id, resolved_block_number, l1_batch_timestamp_s)),
            ),
            Stage::Rejected(error) => Some(Err(error)),
            _ => None,
        }
    }
}

/// Storage as resolving sees it: an answer to each question that can be put
/// to it.
pub struct Storage {
    /// The miniblock that a reference denotes, if any.
    pub block_number: spec_fn(BlockId) -> Result<Option<MiniblockNumber>, StorageError>,
    /// The L1 batch of a miniblock.
    pub l1_batch: spec_fn(MiniblockNumber) -> Result<ResolvedL1Batch, StorageError>,
    /// The expected timestamp of a batch, if any.
    pub l1_batch_timestamp: spec_fn(ResolvedL1Batch) -> Result<Option<u64>, StorageError>,
}

impl Storage {
    /// The reply with which this storage answers `query`.
    pub open spec fn reply(self, query: StorageQuery) -> StorageReply {
        match query {
            StorageQuery::BlockNumber(block_id) => match (self.block_number)(block_id) {
                Ok(number) => StorageReply::BlockNumber(number),
                Err(_) => StorageReply::Failed,
            },
            StorageQuery::L1Batch(miniblock) => match (self.l1_batch)(miniblock) {
                Ok(l1_batch) => StorageReply::L1Batch(l1_batch),
                Err(_) => StorageReply::Failed,
            },
            StorageQuery::L1BatchTimestamp(l1_batch) => match (self.l1_batch_timestamp)(l1_batch) {
                Ok(timestamp) => StorageReply::L1BatchTimestamp(timestamp),
                Err(_) => StorageReply::Failed,
            },
        }
    }

    /// Where resolving stands after at most `steps` questions were put to
    /// this storage and answered by it.
    pub open spec fn drive(self, stage: Stage, steps: nat) -> Stage
        decreases steps,
    {
        match stage.query() {
            Some(query) if steps > 0 => self.drive(stage.next(self.reply(query)), (steps - 1) as nat),
            _ => stage,
        }
    }

    /// What `block_id` resolves to against this storage, given what is
    /// retained.
    ///
    /// A pruned reference is rejected with the first retained miniblock. The
    /// pending block takes its number from storage and has no batch
    /// timestamp. Any other reference is missing if storage holds no block
    /// for it, and else resolves to that block with the timestamp of its
    /// batch. A failed call, a pending block that is absent and a sealed
    /// block without timestamp are faults of storage.
    pub open spec fn resolve(self, block_id: BlockId, start_info: BlockStartInfo) -> Result<
        BlockArgsView,
        BlockArgsError,
    > {
        if start_info.is_pruned(block_id) {
            Err(BlockArgsError::Pruned(start_info.first_miniblock))
        } else if block_id.is_pending() {
            match (self.block_number)(block_id) {
                Ok(Some(resolved_block_number)) => Ok(
                    BlockArgsView { block_id, resolved_block_number, l1_batch_timestamp_s: None },
                ),
                Ok(None) => Err(BlockArgsError::Database(DatabaseFault::PendingBlockMissing)),
                Err(_) => Err(BlockArgsError::Database(DatabaseFault::ResolveBlockId(block_id))),
            }
        } else {
            match (self.block_number)(block_id) {
                Err(_) => Err(BlockArgsError::Database(DatabaseFault::ResolveBlockId(block_id))),
                Ok(None) => Err(BlockArgsError::Missing),
                Ok(Some(resolved_block_number)) => match (self.l1_batch)(resolved_block_number) {
                    Err(_) => Err(
                        BlockArgsError::Database(
                            DatabaseFault::ResolveL1Batch(resolved_block_number),
                        ),
                    ),
                    Ok(l1_batch) => match (self.l1_batch_timestamp)(l1_batch) {
                        Err(_) => Err(
                            BlockArgsError::Database(DatabaseFault::GetL1BatchTimestamp(l1_batch)),
                        ),
                        Ok(None) => Err(
                            BlockArgsError::Database(DatabaseFault::L1BatchTimestampMissing),
                        ),
                        Ok(Some(timestamp)) => Ok(
                            BlockArgsView {
                                block_id,
                                resolved_block_number,
                                l1_batch_timestamp_s: Some(timestamp),
                            },
                        ),
                    },
                },
            }
        }
    }
}

/// Resolving is over after three questions at most, and ends in what
/// [`Storage::resolve`] says, whatever storage answers.
pub proof fn lemma_drive_resolves(storage: Storage, block_id: BlockId, start_info: BlockStartInfo)
    ensures
        storage.drive(Stage::start(block_id, start_info), 3).is_final(),
        storage.drive(Stage::start(block_id, start_info), 3).outcome() == Some(
            storage.resolve(block_id, start_info),
        ),
{
    reveal_with_fuel(Storage::drive, 4);
}

/// Resolving begins consistent and every answer keeps it so: the pending
/// block never gets a batch timestamp, and no other block ends without one.
pub proof fn lemma_next_keeps_consistent(stage: Stage, reply: StorageReply)
    requires
        stage.consistent(),
    ensures
        stage.next(reply).consistent(),
{
}

/// An answer to another question than the one asked, or any answer once
/// resolving is over, changes nothing; an answer to the question asked
/// always moves resolving on.
pub proof fn lemma_next_moves_on_accepted_replies(stage: Stage, reply: StorageReply)
    ensures
        !stage.accepts(reply) ==> stage.next(reply) == stage,
        stage.accepts(reply) ==> stage.next(reply) != stage,
{
}

/// A pruned reference is rejected before storage is asked anything, with the
/// first retained miniblock attached.
pub proof fn lemma_pruned_is_rejected_at_once(block_id: BlockId, start_info: BlockStartInfo)
    requires
        start_info.is_pruned(block_id),
    ensures
        Stage::start(block_id, start_info).outcome() == Some(
            Err::<BlockArgsView, BlockArgsError>(
                BlockArgsError::Pruned(start_info.first_miniblock),
            ),
        ),
{
}

/// With nothing pruned, no reference is rejected as pruned; `earliest` in
/// particular goes on to storage.
pub proof fn lemma_nothing_pruned_from_genesis(block_id: BlockId, start_info: BlockStartInfo)
    requires
        start_info.first_miniblock.0 == 0,
    ensures
        !start_info.is_pruned(block_id),
        Stage::start(block_id, start_info).query() == Some(StorageQuery::BlockNumber(block_id)),
{
}

/// The pending block resolves whenever storage knows its number, and then
/// without a batch timestamp.
pub proof fn lemma_pending_resolves(
    storage: Storage,
    start_info: BlockStartInfo,
    number: MiniblockNumber,
)
    requires
        (storage.block_number)(pending_id()) == Ok::<Option<MiniblockNumber>, StorageError>(
            Some(number),
        ),
    ensures
        storage.resolve(pending_id(), start_info) == Ok::<BlockArgsView, BlockArgsError>(
            BlockArgsView {
                block_id: pending_id(),
                resolved_block_number: number,
                l1_batch_timestamp_s: None,
            },
        ),
{
}

/// A reference that is not pruned and that storage holds no block for is
/// missing: not pruned, and no fault.
pub proof fn lemma_absent_block_is_missing(
    storage: Storage,
    block_id: BlockId,
    start_info: BlockStartInfo,
)
    requires
        !start_info.is_pruned(block_id),
        !block_id.is_pending(),
        (storage.block_number)(block_id) == Ok::<Option<MiniblockNumber>, StorageError>(None),
    ensures
        storage.resolve(block_id, start_info) == Err::<BlockArgsView, BlockArgsError>(
            BlockArgsError::Missing,
        ),
{
}

impl BlockArgs {
    /// Starts loading block information: checks that `block_id` is not
    /// pruned and says what to ask storage first.
    pub fn new(block_id: BlockId, start_info: BlockStartInfo) -> (resolution: Resolution)
        ensures
            resolution@ == Stage::start(block_id, start_info),
            start_info.is_pruned(block_id) ==> resolution@ == Stage::Rejected(
                BlockArgsError::Pruned(start_info.first_miniblock),
            ),
            !start_info.is_pruned(block_id) ==> resolution@.query() == Some(
                StorageQuery::BlockNumber(block_id),
            ),
    {
        Resolution::start(block_id, start_info)
    }
}

} // verus!
