//! The current time, as the outside crates read it.

use vstd::prelude::*;

use crate::model::Timestamp;

verus! {

/// Relies on chrono's `Local::now` and `DateTime::timestamp_millis`: the
/// current time in milliseconds since the Unix epoch. Nothing is promised of
/// the value.
#[verifier::external_body]
pub(crate) fn now_millis() -> (r: Timestamp) {
    chrono::Local::now().timestamp_millis()
}

/// Relies on jwt_simple's `Clock::now_since_epoch` (coarsetime) and
/// `Duration::as_secs`: the current time in whole seconds since the Unix
/// epoch. coarsetime keeps seconds in the upper 32 bits of a `u64`, so the
/// value fits in 32 bits.
#[verifier::external_body]
pub(crate) fn now_secs() -> (r: u64)
    ensures
        r <= 0xffff_ffff,
{
    jwt_simple::prelude::Clock::now_since_epoch().as_secs()
}

} // verus!
