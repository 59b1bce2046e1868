//! Points in time as the service tells them: seconds since 1970 in UTC.

use chrono::{TimeZone, Utc};
use vstd::prelude::*;

verus! {

/// Whether the calendar has a date and time for `secs` seconds since 1970.
pub uninterp spec fn has_date(secs: i64) -> bool;

/// Asks the calendar whether it has a date and time for `secs`.
///
/// Calls `chrono::Utc.timestamp_opt(secs, 0)`, which answers with no date
/// where the number of seconds is out of the calendar's range and with a
/// single date otherwise. Which numbers are in range is left to the
/// calendar; the answer depends on the number alone.
#[verifier::external_body]
fn calendar_has_date(secs: i64) -> (known: bool)
    ensures
        known == has_date(secs),
{
    Utc.timestamp_opt(secs, 0).single().is_some()
}

/// A point in time that the calendar has a date for.
#[derive(Debug, Clone, Copy, PartialEq, Eq)]
pub struct SteamTime {
    secs: i64,
}

impl View for SteamTime {
    type V = i64;

    closed spec fn view(&self) -> i64 {
        self.secs
    }
}

impl SteamTime {
    #[verifier::type_invariant]
    spec fn in_range(self) -> bool {
        has_date(self.secs)
    }

    /// The point in time `secs` seconds after the start of 1970.
    pub closed spec fn at(secs: i64) -> SteamTime {
        SteamTime { secs }
    }

    /// The point in time `secs` seconds after the start of 1970, where the
    /// calendar has a date for it.
    pub fn from_timestamp(secs: i64) -> (time: Option<SteamTime>)
        ensures
            time == (if has_date(secs) {
                Some(SteamTime::at(secs))
            } else {
                None
            }),
    {
        if calendar_has_date(secs) {
            Some(SteamTime { secs })
        } else {
            None
        }
    }

    /// The point in time that an unsigned number of seconds tells. A number
    /// too large for a signed count is no point in time.
    pub fn from_unsigned(secs: u64) -> (time: Option<SteamTime>)
        ensures
            time == (if secs <= i64::MAX && has_date(secs as i64) {
                Some(SteamTime::at(secs as i64))
            } else {
                None
            }),
    {
        if secs > i64::MAX as u64 {
            None
        } else {
            SteamTime::from_timestamp(secs as i64)
        }
    }

    /// Seconds since the start of 1970.
    pub fn timestamp(&self) -> (secs: i64)
        ensures
            secs == self@,
            has_date(secs),
    {
        proof {
            use_type_invariant(self);
        }
        self.secs
    }
}

/// A point in time holds the seconds it was made from.
pub proof fn lemma_time_at(secs: i64)
    ensures
        SteamTime::at(secs)@ == secs,
{
}

} // verus!
