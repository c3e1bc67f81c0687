//! The server's local clock.

use vstd::prelude::*;

use crate::model::Timestamp;

verus! {

/// Reads the server's local wall-clock time: `chrono::Local::now()`, taken as
/// a naive local date-time by `naive_local()`, then written as seconds and
/// sub-second nanoseconds (`and_utc().timestamp()` and
/// `timestamp_subsec_nanos()`, which read the two parts back without
/// shifting them). Nothing is claimed of the reading: it differs from call
/// to call, and the local clock may step backwards. The clock is taken to
/// stand at or after 1970 and within the years chrono can represent; chrono
/// panics on a machine where it does not.
#[verifier::external_body]
pub(crate) fn local_now() -> (now: Timestamp) {
    let t = chrono::Local::now().naive_local().and_utc();
    Timestamp { secs: t.timestamp(), nanos: t.timestamp_subsec_nanos() }
}

} // verus!
