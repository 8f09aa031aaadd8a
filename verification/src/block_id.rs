//! Block references as callers write them, and the numbers they resolve to.

use vstd::prelude::*;

verus! {

/// Number of a miniblock, the finest-grained unit in which the node's state
/// advances.
#[derive(Clone, Copy, Debug, PartialEq, Eq, Structural)]
pub struct MiniblockNumber(pub u32);

/// Number of an L1 batch, a sealed group of miniblocks.
#[derive(Clone, Copy, Debug, PartialEq, Eq, Structural)]
pub struct L1BatchNumber(pub u32);

/// A block given by tag or by number.
#[derive(Clone, Copy, Debug, PartialEq, Eq, Structural)]
pub enum BlockNumber {
    /// Latest block whose batch was committed.
    Committed,
    /// Latest block whose batch was finalized.
    Finalized,
    /// Latest sealed block.
    Latest,
    /// The first block of the chain.
    Earliest,
    /// The block that is being built and is not sealed yet.
    Pending,
    /// The block with this number.
    Number(u64),
}

/// A block given by hash, by number or by tag.
#[derive(Clone, Copy, Debug, PartialEq, Eq)]
pub enum BlockId {
    /// The block with this hash.
    Hash([u8; 32]),
    /// The block with this number or tag.
    Number(BlockNumber),
}

impl BlockId {
    /// Whether this is the `pending` tag.
    pub open spec fn is_pending(self) -> bool {
        self == BlockId::Number(BlockNumber::Pending)
    }

    /// Whether this is one of the tags that follow the chain's head:
    /// `pending`, `latest` or `committed`.
    pub open spec fn follows_head(self) -> bool {
        self == BlockId::Number(BlockNumber::Pending)
            || self == BlockId::Number(BlockNumber::Latest)
            || self == BlockId::Number(BlockNumber::Committed)
    }
}

} // verus!
