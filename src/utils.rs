//! Rendering of durations for messages.
use vstd::prelude::*;
use vstd::string::StringExecFns;

use crate::text::{decimal, decimal_string};

verus! {

/// Relies on std::time::Duration::as_secs: the whole seconds of a duration.
#[verifier::external_body]
fn whole_seconds(duration: &std::time::Duration) -> (r: u64) {
    duration.as_secs()
}

/// A number of seconds as text, such as `12s`.
pub open spec fn seconds_text(secs: u64) -> Seq<char> {
    decimal(secs as nat) + "s"@
}

pub fn seconds_to_string(secs: u64) -> (r: String)
    ensures
        r@ == seconds_text(secs),
{
    decimal_string(secs).concat("s")
}

/// The whole seconds of a duration as text, such as `12s`.
pub fn duration_to_sec_string(duration: &std::time::Duration) -> (r: String)
    ensures
        exists|secs: u64| r@ == seconds_text(secs),
{
    seconds_to_string(whole_seconds(duration))
}

} // verus!
