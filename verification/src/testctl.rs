//! Helpers of the test controller.

use vstd::prelude::*;
use crate::text::{decimal, u64_to_text, concat2};

verus! {

/// A duration in seconds written in its largest whole unit below a day:
/// `42s`, `5m`, `3h`, else whole days.
pub open spec fn duration_text(secs: u64) -> Seq<char> {
    if secs < 60 {
        decimal(secs as nat) + "s"@
    } else if secs < 3600 {
        decimal((secs / 60) as nat) + "m"@
    } else if secs < 86400 {
        decimal((secs / 3600) as nat) + "h"@
    } else {
        decimal((secs / 86400) as nat) + "d"@
    }
}

/// A duration written compactly (see [`duration_text`]).
pub fn format_duration(secs: u64) -> (s: String)
    ensures
        s@ == duration_text(secs),
{
    if secs < 60 {
        concat2(u64_to_text(secs).as_str(), "s")
    } else if secs < 3600 {
        concat2(u64_to_text(secs / 60).as_str(), "m")
    } else if secs < 86400 {
        concat2(u64_to_text(secs / 3600).as_str(), "h")
    } else {
        concat2(u64_to_text(secs / 86400).as_str(), "d")
    }
}

} // verus!
