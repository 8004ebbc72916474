//! The one random choice the core makes: an integer below a bound. Every
//! contract downstream states what holds of every outcome.
use vstd::prelude::*;

verus! {

/// Relies on rand::random_range over `0..n`: returns a value of that
/// half-open range, drawn from the thread-local generator. It panics only
/// on an empty range, which the precondition excludes.
#[verifier::external_body]
pub(crate) fn rand_below(n: usize) -> (r: usize)
    requires
        n > 0,
    ensures
        r < n,
{
    rand::random_range(0..n)
}

} // verus!
