//! Helpers for the platform's device-change notifications.

use vstd::prelude::*;

verus! {

/// Whether an `HRESULT` status code reports a failure (its sign bit is set).
pub fn hresult_failed(hr: i32) -> (r: bool)
    ensures
        r == (hr < 0),
{
    hr < 0
}

} // verus!
