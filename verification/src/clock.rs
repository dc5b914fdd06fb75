//! The wall clock, read once per mutation to stamp the time columns.

use vstd::prelude::*;
use crate::text::dec_str;
use crate::text::is_dec_string;
use crate::text::u64_to_dec_string;

verus! {

/// Relies on `std::time::SystemTime::now` and
/// `SystemTime::duration_since(UNIX_EPOCH)`: the whole seconds since the
/// epoch, or `None` when the machine's clock stands before it. The value is
/// a clock reading; nothing more is assumed of it.
#[verifier::external_body]
fn unix_seconds_now() -> (r: Option<u64>) {
    match std::time::SystemTime::now().duration_since(std::time::SystemTime::UNIX_EPOCH) {
        Ok(d) => Some(d.as_secs()),
        Err(_) => None,
    }
}

/// The current time as a base-ten numeral of seconds since the epoch;
/// the numeral of zero when the clock stands before the epoch.
pub fn get_current_time_string() -> (r: String)
    ensures
        is_dec_string(r@),
{
    let secs: u64 = match unix_seconds_now() {
        Some(s) => s,
        None => 0,
    };
    let r = u64_to_dec_string(secs);
    proof {
        assert(r@ == dec_str(secs as nat));
    }
    r
}

} // verus!
