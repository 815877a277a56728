//! Dueness policy: decides whether a tenant's daily job should run now.
//!
//! All comparisons are in UTC. A calendar date is carried as plain year,
//! month and day; a time of day is carried as minutes since midnight.

use vstd::prelude::*;
use vstd::string::StrSliceExecFns;

use crate::strutil::find_sub;
use crate::strutil::parse_u32;
use crate::strutil::spec_find;
use crate::strutil::spec_parse_u32;

verus! {

/// Width of the window, in minutes, during which a scheduled job is due.
/// Sized to at least twice the scheduler's polling interval, so every
/// window is observed by at least two ticks even under timer jitter.
pub const DUE_WINDOW_MINUTES: u32 = 15;

/// Minutes in a day; a valid minute-of-day is strictly below this.
pub const MINUTES_PER_DAY: u32 = 1440;

/// A UTC calendar date, held as plain numbers.
#[derive(Debug, Clone, Copy, PartialEq, Eq, Structural)]
pub struct Date {
    pub year: u32,
    pub month: u8,
    pub day: u8,
}

impl Date {
    /// A well-formed date: the bounds every calendar date satisfies, and a
    /// year small enough to print as four digits.
    pub open spec fn wf(self) -> bool {
        &&& 1 <= self.month <= 12
        &&& 1 <= self.day <= 31
        &&& self.year <= 9999
    }

    /// Lexicographic order on (year, month, day): true when `self` is on or
    /// after `other`.
    pub open spec fn spec_on_or_after(self, other: Date) -> bool {
        if self.year != other.year {
            self.year > other.year
        } else if self.month != other.month {
            self.month > other.month
        } else {
            self.day >= other.day
        }
    }

    /// True when `self` is on or after `other` in calendar order.
    pub fn on_or_after(&self, other: &Date) -> (r: bool)
        ensures
            r == self.spec_on_or_after(*other),
    {
        if self.year != other.year {
            self.year > other.year
        } else if self.month != other.month {
            self.month > other.month
        } else {
            self.day >= other.day
        }
    }
}

/// When a job scheduled at `scheduled_minute` is due: the last recorded run,
/// whatever its outcome, must be before today, and the current minute must
/// fall in the half-open window starting at the scheduled minute.
pub open spec fn spec_is_due(
    today: Date,
    now_minute: u32,
    scheduled_minute: u32,
    last_run: Option<Date>,
) -> bool {
    let day_free = match last_run {
        Some(d) => !d.spec_on_or_after(today),
        None => true,
    };
    &&& day_free
    &&& scheduled_minute <= now_minute < scheduled_minute + DUE_WINDOW_MINUTES
}

/// Dueness policy. Returns true exactly when the tenant's daily job should
/// run now: no run has been recorded today (a failed attempt also consumes
/// the day's single chance), and the current UTC minute of day lies in
/// `[scheduled_minute, scheduled_minute + DUE_WINDOW_MINUTES)`.
pub fn is_due(
    today: &Date,
    now_minute: u32,
    scheduled_minute: u32,
    last_run: &Option<Date>,
) -> (r: bool)
    requires
        now_minute < MINUTES_PER_DAY,
        scheduled_minute < MINUTES_PER_DAY,
    ensures
        r == spec_is_due(*today, now_minute, scheduled_minute, *last_run),
{
    let day_free = match last_run {
        Some(d) => !d.on_or_after(today),
        None => true,
    };
    day_free && scheduled_minute <= now_minute && now_minute < scheduled_minute + DUE_WINDOW_MINUTES
}

/// Law: a run recorded today — or later, under a skewed clock — suppresses
/// the tenant's job entirely, whatever the recorded outcome was: no minute
/// of the day is due. This read-then-decide check is the system's sole
/// mechanism for at most one record per tenant per UTC calendar day.
pub proof fn lemma_same_day_suppression(
    today: Date,
    now_minute: u32,
    scheduled_minute: u32,
    last_run: Date,
)
    requires
        last_run.spec_on_or_after(today),
    ensures
        !spec_is_due(today, now_minute, scheduled_minute, Some(last_run)),
{
}

/// The minute of day a time-of-day string denotes. The hour is the decimal
/// number before the first `:`, or the whole string without one; the minute
/// is the decimal number between the first and second `:`, taken as zero
/// when absent or not a number. The hour must be a number below 24 and the
/// minute below 60.
pub open spec fn spec_parse_time(s: Seq<char>) -> Option<u32> {
    let hpart = match spec_find(s, seq![':']) {
        None => s,
        Some(i) => s.subrange(0, i),
    };
    let mpart = match spec_find(s, seq![':']) {
        None => None,
        Some(i) => {
            let rest = s.subrange(i + 1, s.len() as int);
            match spec_find(rest, seq![':']) {
                None => Some(rest),
                Some(j) => Some(rest.subrange(0, j)),
            }
        },
    };
    match spec_parse_u32(hpart) {
        None => None,
        Some(h) => {
            let m = match mpart {
                None => 0u32,
                Some(mp) => match spec_parse_u32(mp) {
                    None => 0u32,
                    Some(v) => v,
                },
            };
            if h < 24 && m < 60 {
                Some((h * 60 + m) as u32)
            } else {
                None
            }
        },
    }
}

/// Parse a scheduled time of day, `"HH:MM"` or `"HH:MM:SS"` with seconds
/// ignored, into its minute of day.
pub fn parse_time(s: &str) -> (r: Option<u32>)
    ensures
        r == spec_parse_time(s@),
        r matches Some(m) ==> m < MINUTES_PER_DAY,
{
    proof {
        reveal_strlit(":");
        assert(":"@ =~= seq![':']);
    }
    let len = s.unicode_len();
    let first = find_sub(s, ":");
    let h = match first {
        None => match parse_u32(s) {
            None => {
                return None;
            },
            Some(h) => h,
        },
        Some(i) => match parse_u32(s.substring_char(0, i)) {
            None => {
                return None;
            },
            Some(h) => h,
        },
    };
    let m: u32 = match first {
        None => 0,
        Some(i) => {
            let rest = s.substring_char(i + 1, len);
            let mpart = match find_sub(rest, ":") {
                None => rest,
                Some(j) => rest.substring_char(0, j),
            };
            match parse_u32(mpart) {
                None => 0,
                Some(v) => v,
            }
        },
    };
    if h < 24 && m < 60 {
        Some(h * 60 + m)
    } else {
        None
    }
}

} // verus!
