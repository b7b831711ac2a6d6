//! Wall-clock helper used by the training and inference services.

use vstd::prelude::*;

verus! {

/// Current timestamp in milliseconds since the Unix epoch.
///
/// Relies on `std::time::SystemTime::now` and the duration since
/// `UNIX_EPOCH`: the clock's reading is outside the verified model, so nothing
/// is promised of the value.
#[verifier::external_body]
pub fn now_ms() -> u128 {
    std::time::SystemTime::now().duration_since(std::time::UNIX_EPOCH).unwrap_or_default()
        .as_millis()
}

} // verus!
