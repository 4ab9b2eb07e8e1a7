//! Shared ownership across the two threads.

use std::sync::Arc;
use vstd::prelude::*;

verus! {

/// Calls `Arc::clone`, which makes another pointer to the same allocation and so to the
/// same value: the two pointers are equal.
#[verifier::external_body]
pub(crate) fn share<T>(pointer: &Arc<T>) -> (shared: Arc<T>)
    ensures
        shared == *pointer,
{
    Arc::clone(pointer)
}

} // verus!
