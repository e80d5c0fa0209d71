//! Verified reading of RFC3339-style timestamps and the duration
//! between two of them, truncated to whole minutes.

use vstd::prelude::*;
use vstd::string::StrSliceExecFns;
use vstd::string::StringExecFns;
use crate::text::{dig2, dig4, two_digits_at, four_digits_at, read2, read4, digit_val, dec_str, push_u64};
use crate::date::{valid_ymd, spec_rata_die, rata_die, days_in_month};

verus! {

/// The first position at or after `i` that does not hold a digit.
pub open spec fn skip_digits(s: Seq<char>, i: int) -> int
    decreases s.len() - i,
{
    if i < s.len() && digit_val(s[i]) < 10 {
        skip_digits(s, i + 1)
    } else {
        i
    }
}

/// Whether the timestamp carries a `:SS` seconds part, and its value.
pub open spec fn spec_has_secs(s: Seq<char>) -> bool {
    s.len() >= 19 && s[16] == ':' && two_digits_at(s, 17) && dig2(s, 17) <= 60
}

pub open spec fn spec_sec_val(s: Seq<char>) -> int {
    if spec_has_secs(s) {
        dig2(s, 17)
    } else {
        0
    }
}

pub open spec fn spec_after_secs(s: Seq<char>) -> int {
    if spec_has_secs(s) {
        19
    } else {
        16
    }
}

pub open spec fn spec_frac_present(s: Seq<char>) -> bool {
    spec_after_secs(s) < s.len() && s[spec_after_secs(s)] == '.'
}

pub open spec fn spec_after_frac(s: Seq<char>) -> int {
    if spec_frac_present(s) {
        skip_digits(s, spec_after_secs(s) + 1)
    } else {
        spec_after_secs(s)
    }
}

/// A fraction, when present, must hold at least one digit. Its value is
/// ignored: durations are truncated to whole minutes.
pub open spec fn spec_frac_ok(s: Seq<char>) -> bool {
    !spec_frac_present(s) || spec_after_frac(s) > spec_after_secs(s) + 1
}

/// What the zone designator starting at `i` contributes, in minutes:
/// nothing or `Z` is zero (a designator-free timestamp is read as UTC),
/// and `+HH:MM`/`-HH:MM` is its signed minute count.
pub open spec fn spec_zone_offset_minutes(s: Seq<char>, i: int) -> Option<int> {
    if i == s.len() {
        Some(0)
    } else if i + 1 == s.len() && s[i] == 'Z' {
        Some(0)
    } else if (s[i] == '+' || s[i] == '-') && i + 6 == s.len() && two_digits_at(s, i + 1)
        && s[i + 3] == ':' && two_digits_at(s, i + 4) && dig2(s, i + 1) <= 23
        && dig2(s, i + 4) <= 59 {
        Some(
            (if s[i] == '-' {
                -1int
            } else {
                1int
            }) * (dig2(s, i + 1) * 60 + dig2(s, i + 4)),
        )
    } else {
        None
    }
}

/// Whether the fixed `YYYY-MM-DDTHH:MM` head of a timestamp is present
/// and in range.
pub open spec fn spec_head_ok(s: Seq<char>) -> bool {
    s.len() >= 16 && four_digits_at(s, 0) && s[4] == '-' && two_digits_at(s, 5) && s[7] == '-'
        && two_digits_at(s, 8) && s[10] == 'T' && two_digits_at(s, 11) && s[13] == ':'
        && two_digits_at(s, 14) && valid_ymd(dig4(s, 0), dig2(s, 5), dig2(s, 8)) && dig2(s, 11)
        <= 23 && dig2(s, 14) <= 59
}

/// What reading text as an RFC3339-style instant yields: seconds on a
/// continuous scale (rata die day number times 86400, plus the time of
/// day, shifted by the zone offset).
pub open spec fn spec_instant_seconds(s: Seq<char>) -> Option<int> {
    if spec_head_ok(s) && spec_frac_ok(s) {
        match spec_zone_offset_minutes(s, spec_after_frac(s)) {
            Some(o) => Some(
                spec_rata_die(dig4(s, 0), dig2(s, 5), dig2(s, 8)) * 86400 + dig2(s, 11) * 3600
                    + dig2(s, 14) * 60 + spec_sec_val(s) - o * 60,
            ),
            None => None,
        }
    } else {
        None
    }
}

/// Reads an RFC3339-style timestamp as an instant in seconds.
#[verifier::loop_isolation(false)]
#[verifier::rlimit(60)]
pub fn instant_seconds(s: &str) -> (r: Option<i64>)
    ensures
        match r {
            Option::Some(v) => spec_instant_seconds(s@) == Some(v as int) && -100000 <= v
                < 400000000000,
            Option::None => spec_instant_seconds(s@) is None,
        },
{
    let n = s.unicode_len();
    if n < 16 {
        return None;
    }
    if s.get_char(4) != '-' || s.get_char(7) != '-' || s.get_char(10) != 'T' || s.get_char(13)
        != ':' {
        return None;
    }
    let y = match read4(s, 0) {
        Some(v) => v,
        None => {
            return None;
        },
    };
    let mo = match read2(s, 5) {
        Some(v) => v,
        None => {
            return None;
        },
    };
    let dy = match read2(s, 8) {
        Some(v) => v,
        None => {
            return None;
        },
    };
    let h = match read2(s, 11) {
        Some(v) => v,
        None => {
            return None;
        },
    };
    let mi = match read2(s, 14) {
        Some(v) => v,
        None => {
            return None;
        },
    };
    if !(1 <= y && y <= 9999 && 1 <= mo && mo <= 12 && 1 <= dy && dy <= days_in_month(y, mo) && h
        <= 23 && mi <= 59) {
        return None;
    }
    // seconds part
    let mut sec: u32 = 0;
    let mut i: usize = 16;
    if n >= 19 && s.get_char(16) == ':' {
        match read2(s, 17) {
            Some(v) if v <= 60 => {
                sec = v;
                i = 19;
            },
            _ => {},
        }
    }
    assert(sec == spec_sec_val(s@) && i == spec_after_secs(s@));
    // fraction part, skipped
    if i < n && s.get_char(i) == '.' {
        let start = i;
        i += 1;
        while i < n && digit_value_at(s, i) < 10
            invariant
                start + 1 <= i <= n,
                skip_digits(s@, start + 1) == skip_digits(s@, i as int),
            decreases n - i,
        {
            i += 1;
        }
        assert(skip_digits(s@, i as int) == i);
        if i == start + 1 {
            assert(!spec_frac_ok(s@));
            return None;
        }
        assert(i == spec_after_frac(s@));
    }
    assert(i == spec_after_frac(s@) && spec_frac_ok(s@));
    // zone designator
    let off_min: i64 = match zone_offset(s, i, n) {
        Some(v) => v,
        None => {
            return None;
        },
    };
    let days = rata_die(y, mo, dy);
    let total: i64 = (days as i64) * 86400 + (h as i64) * 3600 + (mi as i64) * 60 + (sec as i64)
        - off_min * 60;
    proof {
        assert(spec_head_ok(s@));
        assert(spec_instant_seconds(s@) == Some(total as int));
    }
    Some(total)
}

/// Reads the zone designator of a timestamp, starting at `i`.
fn zone_offset(s: &str, i: usize, n: usize) -> (r: Option<i64>)
    requires
        n == s@.len(),
        i <= n,
    ensures
        match r {
            Option::Some(v) => spec_zone_offset_minutes(s@, i as int) == Some(v as int) && -1440
                < v < 1440,
            Option::None => spec_zone_offset_minutes(s@, i as int) is None,
        },
{
    if i == n {
        return Some(0);
    }
    if i + 1 == n && s.get_char(i) == 'Z' {
        return Some(0);
    }
    let c = s.get_char(i);
    if !(c == '+' || c == '-') || n - i != 6 || s.get_char(i + 3) != ':' {
        return None;
    }
    let oh = match read2(s, i + 1) {
        Some(v) => v,
        None => {
            return None;
        },
    };
    let om = match read2(s, i + 4) {
        Some(v) => v,
        None => {
            return None;
        },
    };
    if !(oh <= 23 && om <= 59) {
        return None;
    }
    let mag = (oh * 60 + om) as i64;
    proof {
        assert(i + 6 == s@.len());
        assert(s@[i as int] == '+' || s@[i as int] == '-');
        assert(two_digits_at(s@, i as int + 1) && dig2(s@, i as int + 1) == oh);
        assert(two_digits_at(s@, i as int + 4) && dig2(s@, i as int + 4) == om);
        assert(s@[i as int + 3] == ':');
        assert(spec_zone_offset_minutes(s@, i as int) == Some(
            (if s@[i as int] == '-' {
                -1int
            } else {
                1int
            }) * (dig2(s@, i as int + 1) * 60 + dig2(s@, i as int + 4)),
        ));
    }
    let v: i64 = if c == '-' {
        -mag
    } else {
        mag
    };
    assert(-1440 < v < 1440);
    proof {
        let a = dig2(s@, i as int + 1);
        let b = dig2(s@, i as int + 4);
        assert(a == oh as int && b == om as int);
        assert(a * 60 + b == oh as int * 60 + om as int);
        if c == '-' {
            assert(v as int == -(oh as int * 60 + om as int));
            assert(-1int * (a * 60 + b) == -(a * 60 + b)) by (nonlinear_arith);
            assert(v as int == -1int * (a * 60 + b));
        } else {
            assert(v as int == oh as int * 60 + om as int);
            assert(1int * (a * 60 + b) == a * 60 + b);
            assert(v as int == 1int * (a * 60 + b));
        }
    }
    assert(spec_zone_offset_minutes(s@, i as int) == Some(v as int));
    Some(v)
}

/// A digit probe that keeps the position arithmetic in one place.
fn digit_value_at(s: &str, i: usize) -> (d: u32)
    requires
        i < s@.len(),
        s@.len() <= usize::MAX,
    ensures
        d == digit_val(s@[i as int]) || (d == 10 && digit_val(s@[i as int]) >= 10),
        d < 10 <==> digit_val(s@[i as int]) < 10,
{
    let c = s.get_char(i);
    if c == '0' {
        0
    } else if c == '1' {
        1
    } else if c == '2' {
        2
    } else if c == '3' {
        3
    } else if c == '4' {
        4
    } else if c == '5' {
        5
    } else if c == '6' {
        6
    } else if c == '7' {
        7
    } else if c == '8' {
        8
    } else if c == '9' {
        9
    } else {
        10
    }
}

/// The minutes between two instants, zero when the second does not
/// follow the first.
pub open spec fn spec_duration_minutes(dep: Seq<char>, arr: Seq<char>) -> Option<int> {
    match (spec_instant_seconds(dep), spec_instant_seconds(arr)) {
        (Some(a), Some(b)) => Some(
            if b <= a {
                0
            } else {
                (b - a) / 60
            },
        ),
        _ => None,
    }
}

/// The minutes from departure to arrival, when both timestamps read as
/// instants.
pub fn duration_minutes(dep: &str, arr: &str) -> (r: Option<u64>)
    ensures
        match r {
            Option::Some(v) => spec_duration_minutes(dep@, arr@) == Some(v as int),
            Option::None => spec_duration_minutes(dep@, arr@) is None,
        },
{
    let a = match instant_seconds(dep) {
        Some(v) => v,
        None => {
            return None;
        },
    };
    let b = match instant_seconds(arr) {
        Some(v) => v,
        None => {
            return None;
        },
    };
    if b <= a {
        Some(0)
    } else {
        let diff = (b - a) as u64;
        Some(diff / 60)
    }
}

/// The "H hours M minutes" wording of a minute count.
pub open spec fn spec_duration_text(mins: int) -> Seq<char> {
    dec_str(mins / 60) + " hours "@ + dec_str(mins % 60) + " minutes"@
}

pub fn duration_text(mins: u64) -> (r: String)
    ensures
        r@ == spec_duration_text(mins as int),
{
    let mut s = crate::text::u64_to_string(mins / 60);
    s.append(" hours ");
    push_u64(&mut s, mins % 60);
    s.append(" minutes");
    assert(s@ =~= spec_duration_text(mins as int));
    s
}

} // verus!
