//! The one place the library reads the machine's clock.

use vstd::prelude::*;

use crate::stamp::LocalStamp;

verus! {

/// Relies on chrono's `Local::now` for the current local wall-clock instant,
/// on `Datelike::num_days_from_ce` for its day count (an `i32`), and on
/// `Timelike::num_seconds_from_midnight`, whose result chrono documents as
/// lying in 0..=86399. Nothing can be promised about which instant the clock
/// reports, only that its shape is a well-formed stamp within the day range a
/// 32-bit day count allows.
#[verifier::external_body]
pub(crate) fn now_stamp() -> (r: LocalStamp)
    ensures
        r.wf(),
        i32::MIN <= r.day <= i32::MAX,
{
    let now = chrono::Local::now();
    let day = chrono::Datelike::num_days_from_ce(&now.date_naive()) as i64;
    let sec = chrono::Timelike::num_seconds_from_midnight(&now.time());
    LocalStamp { day, sec }
}

} // verus!
