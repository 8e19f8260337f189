//! Local date-times at one-second precision, as plain fields.

use vstd::prelude::*;
use chrono::{Datelike, NaiveDate, NaiveDateTime, Timelike, TimeDelta};

verus! {

/// Earliest year that the calendar library can represent.
pub const MIN_YEAR: i32 = -262143;

/// Latest year that the calendar library can represent.
pub const MAX_YEAR: i32 = 262142;

/// Largest number of seconds that can be added to or subtracted from a stamp at once.
pub const MAX_SHIFT: i64 = 9223372036854775;

/// A local wall-clock instant without time zone, to the second.
#[derive(Clone, Copy, Debug, PartialEq, Eq, Structural)]
pub struct Stamp {
    pub year: i32,
    pub month: u32,
    pub day: u32,
    pub hour: u32,
    pub minute: u32,
    pub second: u32,
}

pub open spec fn is_leap_year(y: int) -> bool {
    (y % 4 == 0 && y % 100 != 0) || y % 400 == 0
}

pub open spec fn days_in_month(y: int, m: int) -> int {
    if m == 2 {
        if is_leap_year(y) { 29 } else { 28 }
    } else if m == 4 || m == 6 || m == 9 || m == 11 {
        30
    } else {
        31
    }
}

/// Days from 1970-01-01 to the given proleptic Gregorian date.
pub open spec fn civil_day(y: int, m: int, d: int) -> int {
    let y2 = if m <= 2 { y - 1 } else { y };
    let era = y2 / 400;
    let yoe = y2 - era * 400;
    let mp = if m > 2 { m - 3 } else { m + 9 };
    let doy = (153 * mp + 2) / 5 + d - 1;
    let doe = yoe * 365 + yoe / 4 - yoe / 100 + doy;
    era * 146097 + doe - 719468
}

impl Stamp {
    /// A real calendar date and time of day, within the calendar library's range.
    pub open spec fn wf(self) -> bool {
        &&& MIN_YEAR <= self.year <= MAX_YEAR
        &&& 1 <= self.month <= 12
        &&& 1 <= self.day <= days_in_month(self.year as int, self.month as int)
        &&& self.hour < 24
        &&& self.minute < 60
        &&& self.second < 60
    }

    /// Seconds since 1970-01-01 00:00:00 on the same wall clock.
    pub open spec fn instant(self) -> int {
        civil_day(self.year as int, self.month as int, self.day as int) * 86400
            + self.hour * 3600 + self.minute * 60 + self.second
    }
}

/// First and last instants that the calendar library can represent.
pub open spec fn instant_in_range(x: int) -> bool {
    civil_day(MIN_YEAR as int, 1, 1) * 86400 <= x <= civil_day(MAX_YEAR as int, 12, 31) * 86400
        + 86399
}

/// Relies on chrono's `NaiveDateTime::checked_add_signed`: the shifted
/// date-time, or `None` when it leaves chrono's range.
#[verifier::external_body]
fn checked_add_signed(t: Stamp, secs: i64) -> (r: Option<Stamp>)
    requires
        t.wf(),
        -MAX_SHIFT <= secs <= MAX_SHIFT,
    ensures
        r matches Some(u) ==> u.wf() && u.instant() == t.instant() + secs,
        instant_in_range(t.instant() + secs) ==> r is Some,
{
    let d = NaiveDate::from_ymd_opt(t.year, t.month, t.day).unwrap();
    let n: NaiveDateTime = d.and_hms_opt(t.hour, t.minute, t.second).unwrap();
    n.checked_add_signed(TimeDelta::seconds(secs)).map(|u| Stamp {
        year: u.year(),
        month: u.month(),
        day: u.day(),
        hour: u.hour(),
        minute: u.minute(),
        second: u.second(),
    })
}

/// Relies on chrono's `NaiveDateTime::signed_duration_since` and
/// `TimeDelta::num_seconds`: the whole seconds from `b` to `a`.
#[verifier::external_body]
fn signed_duration_since(a: Stamp, b: Stamp) -> (r: i64)
    requires
        a.wf(),
        b.wf(),
    ensures
        r == a.instant() - b.instant(),
{
    let na = NaiveDate::from_ymd_opt(a.year, a.month, a.day).unwrap();
    let nb = NaiveDate::from_ymd_opt(b.year, b.month, b.day).unwrap();
    let ta = na.and_hms_opt(a.hour, a.minute, a.second).unwrap();
    let tb = nb.and_hms_opt(b.hour, b.minute, b.second).unwrap();
    ta.signed_duration_since(tb).num_seconds()
}

/// The stamp `secs` seconds after `t` (before it, for a negative `secs`), or
/// `None` when that instant lies outside the calendar's range.
pub fn shift_seconds(t: Stamp, secs: i64) -> (r: Option<Stamp>)
    requires
        t.wf(),
        -MAX_SHIFT <= secs <= MAX_SHIFT,
    ensures
        r matches Some(u) ==> u.wf() && u.instant() == t.instant() + secs,
        instant_in_range(t.instant() + secs) ==> r is Some,
{
    checked_add_signed(t, secs)
}

/// Whole seconds from `b` to `a`: positive when `a` is later.
pub fn seconds_between(a: Stamp, b: Stamp) -> (r: i64)
    requires
        a.wf(),
        b.wf(),
    ensures
        r == a.instant() - b.instant(),
{
    signed_duration_since(a, b)
}

/// The first instant of year `y`.
pub open spec fn year_start(y: int) -> int {
    civil_day(y, 1, 1) * 86400
}

/// A year has 365 or 366 days.
pub proof fn lemma_year_length(y: int)
    ensures
        365 <= civil_day(y + 1, 1, 1) - civil_day(y, 1, 1) <= 366,
        civil_day(y + 1, 1, 1) == civil_day(y, 12, 31) + 1,
{
    let p = y - 1;
    let ep = p / 400;
    let rp = p - ep * 400;
    let e = y / 400;
    let r = y - e * 400;
    assert(0 <= rp < 400 && 0 <= r < 400);
    if rp == 399 {
        assert(e == ep + 1 && r == 0);
    } else {
        assert(e == ep && r == rp + 1);
    }
}

/// Year starts do not decrease with the year.
pub proof fn lemma_year_start_monotone(a: int, b: int)
    requires
        a <= b,
    ensures
        year_start(a) <= year_start(b),
    decreases b - a,
{
    if a < b {
        lemma_year_length(a);
        lemma_year_start_monotone(a + 1, b);
    }
}

/// A stamp lies within its own year.
pub proof fn lemma_within_year(u: Stamp)
    requires
        u.wf(),
    ensures
        year_start(u.year as int) <= u.instant() < year_start(u.year + 1),
{
    let y = u.year as int;
    lemma_year_length(y - 1);
    lemma_year_length(y);
    let m = u.month as int;
    let d = u.day as int;
    assert(civil_day(y, 1, 1) <= civil_day(y, m, d) <= civil_day(y, 12, 31)) by {
        if m <= 2 {
            assert(0 <= (153 * (m + 9) + 2) / 5 + d - 1 - 306 <= 59);
        } else {
            assert((153 * (m - 3) + 2) / 5 + d - 1 <= 305);
        }
    }
}

/// The stamps whose year is `lo` to `hi` are those whose instant lies from
/// the start of `lo` up to the start of `hi + 1`.
pub proof fn lemma_year_range(u: Stamp, lo: int, hi: int)
    requires
        u.wf(),
        lo <= hi,
    ensures
        (lo <= u.year <= hi) <==> (year_start(lo) <= u.instant() < year_start(hi + 1)),
{
    lemma_within_year(u);
    let y = u.year as int;
    if y < lo {
        lemma_year_start_monotone(y + 1, lo);
    } else if y > hi {
        lemma_year_start_monotone(hi + 1, y);
    } else {
        lemma_year_start_monotone(lo, y);
        lemma_year_start_monotone(y + 1, hi + 1);
    }
}

/// Every instant from the start of `lo` up to the start of `hi + 1` lies
/// within the calendar's range, for years within it.
pub proof fn lemma_years_in_range(lo: int, hi: int, x: int)
    requires
        MIN_YEAR <= lo <= hi <= MAX_YEAR,
        year_start(lo) <= x < year_start(hi + 1),
    ensures
        instant_in_range(x),
{
    lemma_year_start_monotone(MIN_YEAR as int, lo);
    lemma_year_start_monotone(hi + 1, MAX_YEAR + 1);
    lemma_year_length(MAX_YEAR as int);
}

} // verus!
