//! Shared ownership of long-lived components.
use std::sync::Arc;

use vstd::prelude::*;

verus! {

/// Another handle to the same shared value (`Arc::clone`, which copies the
/// pointer and bumps the reference count; the value is not copied).
#[verifier::external_body]
pub fn share<T: ?Sized>(a: &Arc<T>) -> (r: Arc<T>)
    ensures
        r == *a,
{
    Arc::clone(a)
}

} // verus!
