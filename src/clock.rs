use vstd::prelude::*;
use crate::task::Timestamp;

verus! {

/// Relies on chrono::Local::now for the current time, read through
/// `DateTime::timestamp`, `DateTime::timestamp_subsec_nanos` and
/// `FixedOffset::local_minus_utc`. Nothing is promised of the value.
#[verifier::external_body]
pub(crate) fn now() -> (r: Timestamp) {
    let t = chrono::Local::now().fixed_offset();
    Timestamp {
        secs: t.timestamp(),
        nanos: t.timestamp_subsec_nanos(),
        offset_secs: t.offset().local_minus_utc(),
    }
}

} // verus!
