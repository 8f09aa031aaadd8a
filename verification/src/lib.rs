//! Admission control and block-context resolution for VM calls served by a
//! node's read API.
//!
//! Two concerns meet here. The first bounds how many VM executions run at
//! once: a [`VmConcurrencyLimiter`] hands out [`VmPermit`]s from a shared
//! semaphore, and its [`VmConcurrencyBarrier`] closes that semaphore and
//! watches it drain. The second turns a caller's block reference into the
//! [`BlockArgs`] a VM run needs, refusing references to pruned data.
//!
//! Everything that suspends (waiting for a permit, sleeping between polls,
//! talking to storage) is left to the caller. This crate decides what to ask
//! for next and what each answer means.

pub mod block_args;
pub mod block_id;
pub mod limiter;
pub mod pool;
pub mod resolution;
mod semaphore;
pub mod start_info;

pub use block_args::{BlockArgs, BlockArgsError, DatabaseFault, StorageError};
pub use block_id::{BlockId, BlockNumber, L1BatchNumber, MiniblockNumber};
pub use limiter::{DrainStep, VmConcurrencyBarrier, VmConcurrencyLimiter, VmPermit};
pub use resolution::{Resolution, ResolvedL1Batch, StorageQuery, StorageReply};
pub use start_info::{BlockStartInfo, SnapshotRecovery};
