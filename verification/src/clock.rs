//! The wall clock the center segment shows.  The reading comes from
//! chrono; everything computed from it is plain, verified data.

use vstd::prelude::*;

use chrono::Datelike;
use chrono::Timelike;

verus! {

/// One reading of the local clock, as plain fields.
#[derive(Clone, Copy, PartialEq, Eq, Structural, Debug)]
pub struct ClockTime {
    pub hour: u8,
    pub minute: u8,
    pub year: u16,
    pub month: u8,
    pub day: u8,
}

impl ClockTime {
    /// Field ranges every reading satisfies.
    pub open spec fn wf(self) -> bool {
        &&& self.hour < 24
        &&& self.minute < 60
        &&& self.year <= 9999
        &&& 1 <= self.month <= 12
        &&& 1 <= self.day <= 31
    }
}

/// Relies on chrono's `Local::now` with the `Timelike` and `Datelike`
/// accessors: the hour is 0..=23, the minute 0..=59, the month 1..=12,
/// the day 1..=31.  Nothing is assumed of the year.  Caveat: chrono
/// itself panics when the system clock reads before the Unix epoch —
/// an environment fault, not an input, so no precondition can exclude
/// it, and chrono offers no non-panicking reading.
#[verifier::external_body]
fn local_now_parts() -> (r: (u32, u32, i32, u32, u32))
    ensures
        r.0 < 24,
        r.1 < 60,
        1 <= r.3 <= 12,
        1 <= r.4 <= 31,
{
    let now = chrono::Local::now();
    let date = now.date_naive();
    (now.hour(), now.minute(), date.year(), date.month(), date.day())
}

/// Read the local clock.  A year outside the four-digit range the date
/// format shows is clamped to its nearest end.
pub fn clock_now() -> (t: ClockTime)
    ensures
        t.wf(),
{
    let (h, mi, y, mo, d) = local_now_parts();
    let year: u16 = if y < 0 {
        0
    } else if y > 9999 {
        9999
    } else {
        y as u16
    };
    ClockTime { hour: h as u8, minute: mi as u8, year, month: mo as u8, day: d as u8 }
}

} // verus!
