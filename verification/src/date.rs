//! Verified Gregorian calendar logic: date validity, day stepping,
//! `YYYY-MM-DD` parsing and rendering, day numbering for duration
//! computation, and the friendly date wording used in prompts. Only
//! "what day is it now" is trusted to chrono.

use vstd::prelude::*;
use vstd::string::StrSliceExecFns;
use vstd::string::StringExecFns;
use crate::text::{
    dig2, dig4, two_digits_at, four_digits_at, read2, read4, pad2, pad4, push_pad2, push_pad4,
    push_u64, dec_str,
};

verus! {

/// A civil date. The library handles years 1 through 9999.
#[derive(Debug, Clone, Copy, PartialEq, Eq, Structural)]
pub struct Date {
    pub year: u32,
    pub month: u32,
    pub day: u32,
}

pub open spec fn spec_is_leap(y: int) -> bool {
    y % 4 == 0 && (y % 100 != 0 || y % 400 == 0)
}

pub open spec fn spec_days_in_month(y: int, m: int) -> int {
    if m == 2 {
        if spec_is_leap(y) {
            29
        } else {
            28
        }
    } else if m == 4 || m == 6 || m == 9 || m == 11 {
        30
    } else {
        31
    }
}

pub open spec fn valid_ymd(y: int, m: int, d: int) -> bool {
    1 <= y <= 9999 && 1 <= m <= 12 && 1 <= d <= spec_days_in_month(y, m)
}

impl Date {
    pub open spec fn valid(self) -> bool {
        valid_ymd(self.year as int, self.month as int, self.day as int)
    }
}

pub fn is_leap(y: u32) -> (r: bool)
    ensures
        r == spec_is_leap(y as int),
{
    y % 4 == 0 && (y % 100 != 0 || y % 400 == 0)
}

pub fn days_in_month(y: u32, m: u32) -> (r: u32)
    ensures
        r == spec_days_in_month(y as int, m as int),
{
    if m == 2 {
        if is_leap(y) {
            29
        } else {
            28
        }
    } else if m == 4 || m == 6 || m == 9 || m == 11 {
        30
    } else {
        31
    }
}

/// The day after `d` in the civil calendar. The last supported day wraps
/// to the first.
pub open spec fn spec_next_day(d: Date) -> Date {
    if d.day < spec_days_in_month(d.year as int, d.month as int) {
        Date { day: (d.day + 1) as u32, ..d }
    } else if d.month < 12 {
        Date { year: d.year, month: (d.month + 1) as u32, day: 1 }
    } else if d.year < 9999 {
        Date { year: (d.year + 1) as u32, month: 1, day: 1 }
    } else {
        Date { year: 1, month: 1, day: 1 }
    }
}

pub fn next_day(d: Date) -> (r: Date)
    requires
        d.valid(),
    ensures
        r == spec_next_day(d),
        r.valid(),
{
    if d.day < days_in_month(d.year, d.month) {
        Date { year: d.year, month: d.month, day: d.day + 1 }
    } else if d.month < 12 {
        Date { year: d.year, month: d.month + 1, day: 1 }
    } else if d.year < 9999 {
        Date { year: d.year + 1, month: 1, day: 1 }
    } else {
        Date { year: 1, month: 1, day: 1 }
    }
}

/// The date `n` days after `d`.
pub open spec fn spec_add_days(d: Date, n: nat) -> Date
    decreases n,
{
    if n == 0 {
        d
    } else {
        spec_add_days(spec_next_day(d), (n - 1) as nat)
    }
}

pub fn add_days(d: Date, n: u32) -> (r: Date)
    requires
        d.valid(),
    ensures
        r == spec_add_days(d, n as nat),
        r.valid(),
{
    let mut cur = d;
    let mut i: u32 = 0;
    while i < n
        invariant
            i <= n,
            cur.valid(),
            spec_add_days(d, n as nat) == spec_add_days(cur, (n - i) as nat),
        decreases n - i,
    {
        cur = next_day(cur);
        i += 1;
    }
    cur
}

/// What reading text as a `YYYY-MM-DD` calendar date yields.
pub open spec fn spec_parse_ymd(s: Seq<char>) -> Option<Date> {
    if s.len() == 10 && four_digits_at(s, 0) && s[4] == '-' && two_digits_at(s, 5) && s[7] == '-'
        && two_digits_at(s, 8) && valid_ymd(dig4(s, 0), dig2(s, 5), dig2(s, 8)) {
        Some(
            Date {
                year: dig4(s, 0) as u32,
                month: dig2(s, 5) as u32,
                day: dig2(s, 8) as u32,
            },
        )
    } else {
        None
    }
}

/// Reads a `YYYY-MM-DD` date, rejecting anything not a valid civil date.
pub fn parse_ymd(s: &str) -> (r: Option<Date>)
    ensures
        r == spec_parse_ymd(s@),
{
    let n = s.unicode_len();
    if n != 10 {
        return None;
    }
    if s.get_char(4) != '-' || s.get_char(7) != '-' {
        return None;
    }
    let y = match read4(s, 0) {
        Some(v) => v,
        None => {
            return None;
        },
    };
    let m = match read2(s, 5) {
        Some(v) => v,
        None => {
            return None;
        },
    };
    let d = match read2(s, 8) {
        Some(v) => v,
        None => {
            return None;
        },
    };
    if 1 <= y && y <= 9999 && 1 <= m && m <= 12 && 1 <= d && d <= days_in_month(y, m) {
        Some(Date { year: y, month: m, day: d })
    } else {
        None
    }
}

/// The `YYYY-MM-DD` rendering of a date.
pub open spec fn spec_format_ymd(d: Date) -> Seq<char> {
    pad4(d.year as int) + seq!['-'] + pad2(d.month as int) + seq!['-'] + pad2(d.day as int)
}

pub fn format_ymd(d: Date) -> (r: String)
    requires
        d.valid(),
    ensures
        r@ == spec_format_ymd(d),
{
    let mut s = String::new();
    push_pad4(&mut s, d.year as u64);
    s.append("-");
    push_pad2(&mut s, d.month as u64);
    s.append("-");
    push_pad2(&mut s, d.day as u64);
    proof {
        reveal_strlit("-");
        assert(s@ =~= spec_format_ymd(d));
    }
    s
}

/// The rata die of a date: its day number in a continuous count with
/// March 1 of year 0 as day 0, so that differences between two dates are
/// exact day distances.
pub open spec fn spec_rata_die(y: int, m: int, d: int) -> int {
    let yy = if m <= 2 {
        y - 1
    } else {
        y
    };
    let era = yy / 400;
    let yoe = yy - era * 400;
    let mp = if m > 2 {
        m - 3
    } else {
        m + 9
    };
    let doy = (153 * mp + 2) / 5 + d - 1;
    let doe = yoe * 365 + yoe / 4 - yoe / 100 + doy;
    era * 146097 + doe
}

pub fn rata_die(y: u32, m: u32, d: u32) -> (r: u64)
    requires
        valid_ymd(y as int, m as int, d as int),
    ensures
        r == spec_rata_die(y as int, m as int, d as int),
        r < 3660000,
{
    let yy: u64 = if m <= 2 {
        (y - 1) as u64
    } else {
        y as u64
    };
    let era: u64 = yy / 400;
    let yoe: u64 = yy - era * 400;
    let mp: u64 = if m > 2 {
        (m - 3) as u64
    } else {
        (m + 9) as u64
    };
    let doy: u64 = (153 * mp + 2) / 5 + (d as u64) - 1;
    let doe: u64 = yoe * 365 + yoe / 4 - yoe / 100 + doy;
    era * 146097 + doe
}

/// The ordinal suffix of a day of the month: `st`, `nd`, `rd` or `th`.
pub open spec fn spec_day_suffix(day: int) -> Seq<char> {
    if 11 <= day <= 13 {
        "th"@
    } else if day % 10 == 1 {
        "st"@
    } else if day % 10 == 2 {
        "nd"@
    } else if day % 10 == 3 {
        "rd"@
    } else {
        "th"@
    }
}

pub fn day_suffix(day: u32) -> (r: &'static str)
    ensures
        r@ == spec_day_suffix(day as int),
{
    if 11 <= day && day <= 13 {
        "th"
    } else if day % 10 == 1 {
        "st"
    } else if day % 10 == 2 {
        "nd"
    } else if day % 10 == 3 {
        "rd"
    } else {
        "th"
    }
}

/// The English month name.
pub open spec fn spec_month_name(m: int) -> Seq<char> {
    if m == 1 {
        "January"@
    } else if m == 2 {
        "February"@
    } else if m == 3 {
        "March"@
    } else if m == 4 {
        "April"@
    } else if m == 5 {
        "May"@
    } else if m == 6 {
        "June"@
    } else if m == 7 {
        "July"@
    } else if m == 8 {
        "August"@
    } else if m == 9 {
        "September"@
    } else if m == 10 {
        "October"@
    } else if m == 11 {
        "November"@
    } else {
        "December"@
    }
}

pub fn month_name(m: u32) -> (r: &'static str)
    ensures
        r@ == spec_month_name(m as int),
{
    if m == 1 {
        "January"
    } else if m == 2 {
        "February"
    } else if m == 3 {
        "March"
    } else if m == 4 {
        "April"
    } else if m == 5 {
        "May"
    } else if m == 6 {
        "June"
    } else if m == 7 {
        "July"
    } else if m == 8 {
        "August"
    } else if m == 9 {
        "September"
    } else if m == 10 {
        "October"
    } else if m == 11 {
        "November"
    } else {
        "December"
    }
}

/// The friendly "Month Day(suffix) Year" wording of a date.
pub open spec fn spec_friendly_date(d: Date) -> Seq<char> {
    spec_month_name(d.month as int) + " "@ + dec_str(d.day as int) + spec_day_suffix(d.day as int)
        + " "@ + dec_str(d.year as int)
}

pub fn friendly_date(d: Date) -> (r: String)
    requires
        d.valid(),
    ensures
        r@ == spec_friendly_date(d),
{
    let mut s = String::from_str(month_name(d.month));
    s.append(" ");
    push_u64(&mut s, d.day as u64);
    s.append(day_suffix(d.day));
    s.append(" ");
    push_u64(&mut s, d.year as u64);
    assert(s@ =~= spec_friendly_date(d));
    s
}

/// What taming a raw provider-clock reading yields: the date itself when
/// it lies in the library's supported range, and the first supported day
/// otherwise.
pub open spec fn spec_date_from_raw(y: int, m: int, d: int) -> Date {
    if valid_ymd(y, m, d) {
        Date { year: y as u32, month: m as u32, day: d as u32 }
    } else {
        Date { year: 2000, month: 1, day: 1 }
    }
}

/// Tames a raw clock reading into a valid date.
pub fn date_from_raw(y: i32, m: u32, d: u32) -> (r: Date)
    ensures
        r == spec_date_from_raw(y as int, m as int, d as int),
        r.valid(),
{
    if 1 <= y && y <= 9999 && 1 <= m && m <= 12 && 1 <= d && d <= days_in_month(y as u32, m) {
        Date { year: y as u32, month: m, day: d }
    } else {
        Date { year: 2000, month: 1, day: 1 }
    }
}

/// Relies on chrono::Utc::now and chrono::Datelike: the current civil
/// date in UTC; the month and day numbers are one-based as chrono
/// documents them.
#[verifier::external_body]
fn today_utc_raw() -> (r: (i32, u32, u32)) {
    let now = chrono::Utc::now().date_naive();
    (chrono::Datelike::year(&now), chrono::Datelike::month(&now), chrono::Datelike::day(&now))
}

/// Relies on chrono::Local::now and chrono::Datelike: the current civil
/// date in the machine's time zone.
#[verifier::external_body]
fn today_local_raw() -> (r: (i32, u32, u32)) {
    let now = chrono::Local::now().date_naive();
    (chrono::Datelike::year(&now), chrono::Datelike::month(&now), chrono::Datelike::day(&now))
}

/// Today in UTC, tamed into the supported range. What holds of the
/// result holds of every clock reading: it is a valid date.
pub fn today_utc() -> (r: Date)
    ensures
        r.valid(),
{
    let (y, m, d) = today_utc_raw();
    date_from_raw(y, m, d)
}

/// Today in local time, tamed into the supported range.
pub fn today_local() -> (r: Date)
    ensures
        r.valid(),
{
    let (y, m, d) = today_local_raw();
    date_from_raw(y, m, d)
}

/// The friendly wording of the date thirty days from now: how a caller
/// phrases "about a month out" in a prompt.
pub fn now_plus_30d() -> (r: String)
    ensures
        exists|today: Date| today.valid() && r@ == spec_friendly_date(
            spec_add_days(today, 30),
        ),
{
    let today = today_local();
    let future = add_days(today, 30);
    let r = friendly_date(future);
    proof {
        assert(today.valid() && r@ == spec_friendly_date(spec_add_days(today, 30)));
    }
    r
}

} // verus!
