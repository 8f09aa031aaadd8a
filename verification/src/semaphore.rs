//! What this crate takes on trust about tokio's semaphore and runtime handle.
//!
//! A semaphore is shared and changes under every holder's feet, so nothing
//! here says what a call observes: the count and the closed flag that one call
//! reads may be stale by the next. What the semaphore promises over time is
//! written down, and reasoned about, in [`crate::pool`].

use vstd::prelude::*;

verus! {

/// tokio's counting semaphore. Opaque: a value stands for the shared object,
/// not for its count.
#[verifier::external_type_specification]
#[verifier::external_body]
pub struct ExSemaphore(tokio::sync::Semaphore);

/// A permit taken from a semaphore, returned to it when dropped.
#[verifier::external_type_specification]
#[verifier::external_body]
pub struct ExOwnedSemaphorePermit(tokio::sync::OwnedSemaphorePermit);

/// The error with which waiting on a closed semaphore ends.
#[verifier::external_type_specification]
#[verifier::external_body]
pub struct ExAcquireError(tokio::sync::AcquireError);

/// Handle to a tokio runtime.
#[verifier::external_type_specification]
#[verifier::external_body]
pub struct ExHandle(tokio::runtime::Handle);

/// `Semaphore::new` makes a semaphore with `permits` permits. It panics above
/// `Semaphore::MAX_PERMITS`, which is `usize::MAX >> 3`; the `requires` keeps
/// callers below that.
pub assume_specification[ tokio::sync::Semaphore::new ](permits: usize) -> tokio::sync::Semaphore
    requires
        permits <= usize::MAX / 8,
;

/// `Semaphore::close` closes the semaphore. It returns nothing and never
/// panics.
pub assume_specification[ tokio::sync::Semaphore::close ](semaphore: &tokio::sync::Semaphore)
;

/// `Semaphore::is_closed` reads the closed flag as it is at the moment of the
/// call. Nothing is claimed of the answer.
pub assume_specification[ tokio::sync::Semaphore::is_closed ](
    semaphore: &tokio::sync::Semaphore,
) -> bool
;

/// `Semaphore::available_permits` reads the count of free permits as it is at
/// the moment of the call. Nothing is claimed of the answer.
pub assume_specification[ tokio::sync::Semaphore::available_permits ](
    semaphore: &tokio::sync::Semaphore,
) -> usize
;

/// `Handle::clone` gives another handle to the same runtime. Handles are
/// reference-counted pointers, so the copy is taken to be the same value.
pub assume_specification[ <tokio::runtime::Handle as Clone>::clone ](
    handle: &tokio::runtime::Handle,
) -> (copy: tokio::runtime::Handle)
    ensures
        copy == *handle,
;

/// `Handle::try_current` gives the handle of the runtime that the calling
/// thread runs in, or an error outside any runtime. Which of the two depends
/// on where the call is made, so nothing is claimed of the answer.
#[verifier::external_body]
pub(crate) fn current_handle() -> Option<tokio::runtime::Handle> {
    tokio::runtime::Handle::try_current().ok()
}

} // verus!
