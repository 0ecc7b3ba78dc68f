//! The computed parts of the telemetry snapshot.
//!
//! The snapshot itself is a pass-through of host facts gathered at the
//! boundary; only its two computations live here: memory sizes are reported
//! in mebibytes, and a fact the host does not report becomes the label
//! `"Unknown"`.

use vstd::prelude::*;
use vstd::string::StringExecFns;

verus! {

/// A byte count as whole mebibytes, rounded down.
pub fn to_mebibytes(bytes: u64) -> (r: u64)
    ensures
        r == bytes / 0x100000,
{
    bytes / (1024 * 1024)
}

/// A reported fact, or the label `"Unknown"` where the host reported none.
pub fn label_or_unknown(fact: Option<String>) -> (r: String)
    ensures
        fact matches Some(s) ==> r@ == s@,
        fact is None ==> r@ == "Unknown"@,
{
    match fact {
        Some(s) => s,
        None => String::from_str("Unknown"),
    }
}

} // verus!
