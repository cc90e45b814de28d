use vstd::prelude::*;

verus! {

/// The handle that asks a running future to stop at its next suspension point.
#[verifier::external_type_specification]
#[verifier::external_body]
pub struct ExAbortHandle(futures::future::AbortHandle);

/// The registration that ties a future to its `AbortHandle`.
#[verifier::external_type_specification]
#[verifier::external_body]
pub struct ExAbortRegistration(futures::future::AbortRegistration);

/// Relies on futures' `AbortHandle::new_pair`: it builds a fresh handle and the
/// registration bound to it, and never fails.
pub assume_specification[ futures::future::AbortHandle::new_pair ]() -> (
    futures::future::AbortHandle,
    futures::future::AbortRegistration,
);

/// Relies on futures' `AbortHandle::abort`: it only raises the shared abort flag
/// and wakes the task, and never fails.
pub assume_specification[ futures::future::AbortHandle::abort ](
    h: &futures::future::AbortHandle,
);

} // verus!
