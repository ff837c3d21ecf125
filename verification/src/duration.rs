//! Whole seconds of a `std::time::Duration`.

use std::time::Duration;
use vstd::prelude::*;

verus! {

/// The whole seconds that `Duration::as_secs` reports for `d`.
pub uninterp spec fn duration_secs(d: Duration) -> u64;

/// Calls `Duration::as_secs`. The contract claims only that the answer is
/// the one `duration_secs` names for this duration: it depends on the
/// duration alone.
#[verifier::external_body]
pub(crate) fn whole_secs(d: Duration) -> (r: u64)
    ensures
        r == duration_secs(d),
{
    d.as_secs()
}

} // verus!
