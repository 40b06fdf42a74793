//! Wall-clock timestamps for file naming.
//!
//! The local time itself comes from the outside clock; everything derived
//! from it — validation and the `YYYY-MM-DD HH:MM:SS` rendering — is verified.

use chrono::Datelike;
use chrono::Timelike;
use vstd::prelude::*;

use crate::text::four_digits_seq;
use crate::text::push_four_digits;
use crate::text::push_two_digits;
use crate::text::two_digits_seq;

verus! {

/// A local calendar date and time, split into plain fields.
#[derive(Copy, Clone, Debug, PartialEq, Eq, Structural)]
pub struct Timestamp {
    pub year: u32,
    pub month: u32,
    pub day: u32,
    pub hour: u32,
    pub minute: u32,
    pub second: u32,
}

impl Timestamp {
    /// Every field within the range its rendering assumes: a four-digit
    /// year and calendar ranges for the rest.
    pub open spec fn wf(self) -> bool {
        &&& self.year <= 9999
        &&& 1 <= self.month <= 12
        &&& 1 <= self.day <= 31
        &&& self.hour <= 23
        &&& self.minute <= 59
        &&& self.second <= 59
    }

    /// Builds a timestamp from raw clock fields, rejecting anything outside
    /// the ranges `wf` demands.
    pub fn from_parts(year: i64, month: u32, day: u32, hour: u32, minute: u32, second: u32) -> (r:
        Option<Timestamp>)
        ensures
            match r {
                Some(t) => {
                    &&& t.wf()
                    &&& t.year == year
                    &&& t.month == month
                    &&& t.day == day
                    &&& t.hour == hour
                    &&& t.minute == minute
                    &&& t.second == second
                },
                None => !(0 <= year <= 9999 && 1 <= month <= 12 && 1 <= day <= 31 && hour <= 23
                    && minute <= 59 && second <= 59),
            },
    {
        if 0 <= year && year <= 9999 && 1 <= month && month <= 12 && 1 <= day && day <= 31 && hour
            <= 23 && minute <= 59 && second <= 59 {
            Some(
                Timestamp {
                    year: year as u32,
                    month,
                    day,
                    hour,
                    minute,
                    second,
                },
            )
        } else {
            None
        }
    }

    /// The `YYYY-MM-DD HH:MM:SS` rendering used in output file names.
    pub open spec fn spec_text(self) -> Seq<char> {
        four_digits_seq(self.year as nat) + "-"@ + two_digits_seq(self.month as nat) + "-"@
            + two_digits_seq(self.day as nat) + " "@ + two_digits_seq(self.hour as nat) + ":"@
            + two_digits_seq(self.minute as nat) + ":"@ + two_digits_seq(self.second as nat)
    }

    pub fn text(&self) -> (r: String)
        requires
            self.wf(),
        ensures
            r@ == self.spec_text(),
    {
        let mut r = String::new();
        push_four_digits(&mut r, self.year);
        r.append("-");
        push_two_digits(&mut r, self.month);
        r.append("-");
        push_two_digits(&mut r, self.day);
        r.append(" ");
        push_two_digits(&mut r, self.hour);
        r.append(":");
        push_two_digits(&mut r, self.minute);
        r.append(":");
        push_two_digits(&mut r, self.second);
        proof {
            assert(r@ =~= self.spec_text());
        }
        r
    }
}

/// Relies on chrono's `Local::now` and its `Datelike`/`Timelike` accessors:
/// `month` is 1..=12, `day` is 1..=31, `hour` is 0..=23, `minute` is 0..=59
/// and `second` is 0..=59. The year is whatever the clock reports.
#[verifier::external_body]
fn local_now_parts() -> (r: (i64, u32, u32, u32, u32, u32))
    ensures
        1 <= r.1 <= 12,
        1 <= r.2 <= 31,
        r.3 <= 23,
        r.4 <= 59,
        r.5 <= 59,
{
    let now = chrono::Local::now();
    (now.year() as i64, now.month(), now.day(), now.hour(), now.minute(), now.second())
}

/// Reads the local wall clock. `None` only for a clock outside the years
/// 0..=9999, which no running system reports.
pub fn now() -> (r: Option<Timestamp>)
    ensures
        r matches Some(t) ==> t.wf(),
{
    let (year, month, day, hour, minute, second) = local_now_parts();
    Timestamp::from_parts(year, month, day, hour, minute, second)
}

} // verus!
