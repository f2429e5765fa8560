//! The smoke surface of the search service: its version.

use vstd::prelude::*;

verus! {

/// The crate version.
pub fn version() -> (v: &'static str)
    ensures
        v@ == "0.1.0"@,
{
    "0.1.0"
}

} // verus!
