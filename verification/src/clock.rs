//! Timestamps: seconds since the Unix epoch, as decimal text.

use vstd::prelude::*;

use crate::text::{decimal, push_decimal, string_of};

verus! {

/// `SystemTime::now` of std, as whole seconds since the Unix epoch; nothing
/// where the clock stands before the epoch. The result depends on the
/// machine's clock, so nothing is claimed of it.
#[verifier::external_body]
fn seconds_since_epoch() -> Option<u64> {
    match std::time::SystemTime::now().duration_since(std::time::UNIX_EPOCH) {
        Ok(elapsed) => Some(elapsed.as_secs()),
        Err(_) => None,
    }
}

/// Whether `text` is a timestamp: a number of seconds in decimal.
pub open spec fn is_timestamp(text: Seq<char>) -> bool {
    exists|seconds: u64| text == decimal(seconds as nat)
}

/// The timestamp for `seconds` since the epoch.
pub fn format_timestamp(seconds: u64) -> (text: String)
    ensures
        text@ == decimal(seconds as nat),
        is_timestamp(text@),
{
    let mut out: Vec<char> = Vec::new();
    push_decimal(seconds, &mut out);
    assert(out@ =~= decimal(seconds as nat));
    string_of(&out)
}

/// The timestamp of the present moment. A clock that stands before the
/// epoch reads as the epoch itself.
pub fn get_current_timestamp() -> (text: String)
    ensures
        is_timestamp(text@),
{
    match seconds_since_epoch() {
        Some(seconds) => format_timestamp(seconds),
        None => format_timestamp(0),
    }
}

} // verus!
