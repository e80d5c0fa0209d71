//! Verified text utilities: string equality, decimal rendering of
//! integers, and reading decimal number text into a two-decimal
//! fixed-point amount (the library's model of provider prices).

use vstd::prelude::*;
use vstd::string::StrSliceExecFns;
use vstd::string::StringExecFns;

verus! {

/// The value of a decimal digit character, or 10 for any other character.
pub open spec fn digit_val(c: char) -> int {
    if c == '0' {
        0
    } else if c == '1' {
        1
    } else if c == '2' {
        2
    } else if c == '3' {
        3
    } else if c == '4' {
        4
    } else if c == '5' {
        5
    } else if c == '6' {
        6
    } else if c == '7' {
        7
    } else if c == '8' {
        8
    } else if c == '9' {
        9
    } else {
        10
    }
}

/// The decimal digit character for a value below ten.
pub open spec fn digit_char(d: int) -> char {
    if d == 0 {
        '0'
    } else if d == 1 {
        '1'
    } else if d == 2 {
        '2'
    } else if d == 3 {
        '3'
    } else if d == 4 {
        '4'
    } else if d == 5 {
        '5'
    } else if d == 6 {
        '6'
    } else if d == 7 {
        '7'
    } else if d == 8 {
        '8'
    } else {
        '9'
    }
}

pub open spec fn all_digits(s: Seq<char>) -> bool {
    forall|i: int| 0 <= i < s.len() ==> digit_val(s[i]) < 10
}

/// The numeric value of a sequence of decimal digit characters.
pub open spec fn digits_val(s: Seq<char>) -> int
    decreases s.len(),
{
    if s.len() == 0 {
        0
    } else {
        digits_val(s.drop_last()) * 10 + digit_val(s.last())
    }
}

pub open spec fn pow10(n: nat) -> int
    decreases n,
{
    if n == 0 {
        1
    } else {
        10 * pow10((n - 1) as nat)
    }
}

pub proof fn lemma_digits_val_bound(s: Seq<char>)
    requires
        all_digits(s),
    ensures
        0 <= digits_val(s) < pow10(s.len()),
    decreases s.len(),
{
    if s.len() > 0 {
        assert(all_digits(s.drop_last())) by {
            assert(forall|i: int|
                0 <= i < s.len() - 1 ==> s.drop_last()[i] == s[i] && digit_val(s[i]) < 10);
        }
        lemma_digits_val_bound(s.drop_last());
        assert(digit_val(s.last()) < 10);
    }
}

/// The decimal rendering of a non-negative integer, most significant
/// digit first, with no leading zeros (a single zero for zero).
pub open spec fn dec_str(n: int) -> Seq<char>
    decreases n,
{
    if n < 10 {
        seq![digit_char(n)]
    } else {
        dec_str(n / 10).push(digit_char(n % 10))
    }
}

/// A single decimal digit as a string slice.
fn digit_str(d: u64) -> (r: &'static str)
    requires
        d < 10,
    ensures
        r@ =~= seq![digit_char(d as int)],
{
    proof {
        reveal_strlit("0");
        reveal_strlit("1");
        reveal_strlit("2");
        reveal_strlit("3");
        reveal_strlit("4");
        reveal_strlit("5");
        reveal_strlit("6");
        reveal_strlit("7");
        reveal_strlit("8");
        reveal_strlit("9");
    }
    if d == 0 {
        "0"
    } else if d == 1 {
        "1"
    } else if d == 2 {
        "2"
    } else if d == 3 {
        "3"
    } else if d == 4 {
        "4"
    } else if d == 5 {
        "5"
    } else if d == 6 {
        "6"
    } else if d == 7 {
        "7"
    } else if d == 8 {
        "8"
    } else {
        "9"
    }
}

/// Appends the decimal rendering of `n` to `out`.
pub fn push_u64(out: &mut String, n: u64)
    ensures
        final(out)@ == old(out)@ + dec_str(n as int),
    decreases n,
{
    if n < 10 {
        out.append(digit_str(n));
    } else {
        push_u64(out, n / 10);
        out.append(digit_str(n % 10));
        assert(out@ =~= old(out)@ + dec_str(n as int));
    }
}

/// The decimal rendering of a non-negative integer as a fresh string.
pub fn u64_to_string(n: u64) -> (r: String)
    ensures
        r@ == dec_str(n as int),
{
    let mut s = String::new();
    push_u64(&mut s, n);
    assert(s@ =~= dec_str(n as int));
    s
}

/// What reading a decimal digit string as a non-negative integer yields.
/// The library reads numeric provider fields of up to fifteen digits;
/// anything longer, signed, fractional, or non-numeric is treated as absent.
pub open spec fn spec_parse_u64(s: Seq<char>) -> Option<u64> {
    if 1 <= s.len() <= 15 && all_digits(s) {
        Some(digits_val(s) as u64)
    } else {
        None
    }
}

/// The digit value of a character, with 10 standing for "not a digit".
fn digit_value(c: char) -> (d: u64)
    ensures
        d == digit_val(c),
{
    if c == '0' {
        0
    } else if c == '1' {
        1
    } else if c == '2' {
        2
    } else if c == '3' {
        3
    } else if c == '4' {
        4
    } else if c == '5' {
        5
    } else if c == '6' {
        6
    } else if c == '7' {
        7
    } else if c == '8' {
        8
    } else if c == '9' {
        9
    } else {
        10
    }
}

/// Reads the digit characters of `s` between `from` and `to` as an integer.
fn parse_digits(s: &str, from: usize, to: usize) -> (r: Option<u64>)
    requires
        from <= to <= s@.len(),
        to - from <= 15,
    ensures
        r == spec_parse_u64(s@.subrange(from as int, to as int)),
{
    let ghost sub = s@.subrange(from as int, to as int);
    if from == to {
        return None;
    }
    proof {
        reveal_with_fuel(pow10, 16);
    }
    let mut acc: u64 = 0;
    let mut i: usize = from;
    while i < to
        invariant
            from <= i <= to <= s@.len(),
            to - from <= 15,
            sub == s@.subrange(from as int, to as int),
            all_digits(sub.take(i - from)),
            acc == digits_val(sub.take(i - from)),
            acc < pow10((i - from) as nat),
            pow10(15) == 1000000000000000,
        decreases to - i,
    {
        let c = s.get_char(i);
        let d = digit_value(c);
        if d >= 10 {
            assert(digit_val(sub[i - from]) >= 10);
            return None;
        }
        proof {
            lemma_digits_val_bound(sub.take(i - from));
            assert(pow10((i - from) as nat) <= pow10(14)) by {
                lemma_pow10_increases((i - from) as nat, 14);
            }
            assert(sub.take(i - from + 1).drop_last() =~= sub.take(i - from));
            assert(sub.take(i - from + 1).last() == sub[i - from]);
        }
        acc = acc * 10 + d;
        proof {
            assert(all_digits(sub.take(i - from + 1))) by {
                assert(forall|j: int|
                    0 <= j < i - from + 1 ==> sub.take(i - from + 1)[j] == sub[j]);
            }
        }
        i += 1;
    }
    assert(sub.take(to - from) =~= sub);
    Some(acc)
}

pub proof fn lemma_pow10_increases(a: nat, b: nat)
    requires
        a <= b,
    ensures
        pow10(a) <= pow10(b),
    decreases b,
{
    if a < b {
        lemma_pow10_increases(a, (b - 1) as nat);
        assert(pow10((b - 1) as nat) >= 1) by {
            lemma_pow10_pos((b - 1) as nat);
        }
    }
}

pub proof fn lemma_pow10_pos(n: nat)
    ensures
        pow10(n) >= 1,
    decreases n,
{
    if n > 0 {
        lemma_pow10_pos((n - 1) as nat);
    }
}

/// Reads a whole string as a non-negative integer.
pub fn parse_u64_str(s: &str) -> (r: Option<u64>)
    ensures
        r == spec_parse_u64(s@),
{
    let n = s.unicode_len();
    if n > 15 {
        return None;
    }
    let r = parse_digits(s, 0, n);
    assert(s@.subrange(0, n as int) =~= s@);
    r
}

pub open spec fn two_digits_at(s: Seq<char>, i: int) -> bool {
    digit_val(s[i]) < 10 && digit_val(s[i + 1]) < 10
}

/// The value of the two digit characters at `i`.
pub open spec fn dig2(s: Seq<char>, i: int) -> int {
    digit_val(s[i]) * 10 + digit_val(s[i + 1])
}

pub open spec fn four_digits_at(s: Seq<char>, i: int) -> bool {
    two_digits_at(s, i) && two_digits_at(s, i + 2)
}

/// The value of the four digit characters at `i`.
pub open spec fn dig4(s: Seq<char>, i: int) -> int {
    dig2(s, i) * 100 + dig2(s, i + 2)
}

/// Reads the two-digit number at position `i`.
pub fn read2(s: &str, i: usize) -> (r: Option<u32>)
    requires
        i + 2 <= s@.len() <= usize::MAX,
    ensures
        match r {
            Option::Some(v) => two_digits_at(s@, i as int) && v == dig2(s@, i as int),
            Option::None => !two_digits_at(s@, i as int),
        },
{
    let a = digit_value(s.get_char(i));
    let b = digit_value(s.get_char(i + 1));
    if a < 10 && b < 10 {
        Some((a * 10 + b) as u32)
    } else {
        None
    }
}

/// Reads the four-digit number at position `i`.
pub fn read4(s: &str, i: usize) -> (r: Option<u32>)
    requires
        i + 4 <= s@.len() <= usize::MAX,
    ensures
        match r {
            Option::Some(v) => four_digits_at(s@, i as int) && v == dig4(s@, i as int),
            Option::None => !four_digits_at(s@, i as int),
        },
{
    let hi = read2(s, i);
    let lo = read2(s, i + 2);
    match (hi, lo) {
        (Option::Some(h), Option::Some(l)) => Some(h * 100 + l),
        _ => None,
    }
}

/// A two-digit zero-padded decimal rendering.
pub open spec fn pad2(n: int) -> Seq<char> {
    seq![digit_char(n / 10), digit_char(n % 10)]
}

/// A four-digit zero-padded decimal rendering.
pub open spec fn pad4(n: int) -> Seq<char> {
    seq![
        digit_char(n / 1000),
        digit_char((n / 100) % 10),
        digit_char((n / 10) % 10),
        digit_char(n % 10),
    ]
}

/// Appends the two-digit zero-padded rendering of `n`.
pub fn push_pad2(out: &mut String, n: u64)
    requires
        n < 100,
    ensures
        final(out)@ == old(out)@ + pad2(n as int),
{
    out.append(digit_str(n / 10));
    out.append(digit_str(n % 10));
    assert(out@ =~= old(out)@ + pad2(n as int));
}

/// Appends the four-digit zero-padded rendering of `n`.
pub fn push_pad4(out: &mut String, n: u64)
    requires
        n < 10000,
    ensures
        final(out)@ == old(out)@ + pad4(n as int),
{
    out.append(digit_str(n / 1000));
    out.append(digit_str((n / 100) % 10));
    out.append(digit_str((n / 10) % 10));
    out.append(digit_str(n % 10));
    assert(out@ =~= old(out)@ + pad4(n as int));
}

/// The leading run of characters of `b` before the first `.`.
pub open spec fn int_part(b: Seq<char>) -> Seq<char>
    decreases b.len(),
{
    if b.len() == 0 || b[0] == '.' {
        Seq::empty()
    } else {
        seq![b[0]] + int_part(b.drop_first())
    }
}

/// What follows the first `.` of `b`, if any.
pub open spec fn frac_part(b: Seq<char>) -> Option<Seq<char>>
    decreases b.len(),
{
    if b.len() == 0 {
        None
    } else if b[0] == '.' {
        Some(b.drop_first())
    } else {
        frac_part(b.drop_first())
    }
}

/// The fractional digits of a decimal number rounded to hundredths:
/// the first two digits, rounded up when the third digit is five or more
/// (rounding half away from zero).
pub open spec fn frac_hundredths(f: Seq<char>) -> int {
    (if f.len() >= 1 {
        digit_val(f[0]) * 10
    } else {
        0
    }) + (if f.len() >= 2 {
        digit_val(f[1])
    } else {
        0
    }) + (if f.len() >= 3 && digit_val(f[2]) >= 5 {
        1int
    } else {
        0int
    })
}

/// What reading decimal number text as a two-decimal fixed-point amount
/// (in hundredths) yields: an optional sign, an integer part of one to
/// fifteen digits, and an optional non-empty run of fractional digits,
/// rounded to hundredths half away from zero. Exponent forms and anything
/// else are treated as absent.
pub open spec fn spec_parse_hundredths(s: Seq<char>) -> Option<int> {
    let neg = s.len() > 0 && s[0] == '-';
    let b = if neg {
        s.drop_first()
    } else {
        s
    };
    let ip = int_part(b);
    let ok_int = 1 <= ip.len() <= 15 && all_digits(ip);
    let ok_frac = match frac_part(b) {
        Option::None => true,
        Option::Some(f) => f.len() >= 1 && all_digits(f),
    };
    if ok_int && ok_frac {
        let v = digits_val(ip) * 100 + (match frac_part(b) {
            Option::None => 0,
            Option::Some(f) => frac_hundredths(f),
        });
        Some(
            if neg {
                -v
            } else {
                v
            },
        )
    } else {
        None
    }
}

/// Relates `int_part` and `frac_part` to the position of the first dot.
proof fn lemma_dot_split(b: Seq<char>, k: int)
    requires
        0 <= k <= b.len(),
        forall|j: int| 0 <= j < k ==> b[j] != '.',
        k == b.len() || b[k] == '.',
    ensures
        int_part(b) =~= b.take(k),
        frac_part(b) == (if k == b.len() {
            Option::<Seq<char>>::None
        } else {
            Option::Some(b.skip(k + 1))
        }),
    decreases k,
{
    if k == 0 {
        if b.len() > 0 && b[0] == '.' {
            assert(b.drop_first() =~= b.skip(1));
        }
    } else {
        let t = b.drop_first();
        assert(forall|j: int| 0 <= j < k - 1 ==> t[j] == b[j + 1] && b[j + 1] != '.');
        lemma_dot_split(t, k - 1);
        assert(seq![b[0]] + t.take(k - 1) =~= b.take(k));
        if k < b.len() {
            assert(t.skip(k) =~= b.skip(k + 1));
        }
    }
}

/// Reads decimal number text as an amount in hundredths.
#[verifier::loop_isolation(false)]
#[verifier::rlimit(60)]
pub fn parse_hundredths(s: &str) -> (r: Option<i64>)
    ensures
        match r {
            Option::Some(v) => spec_parse_hundredths(s@) == Some(v as int),
            Option::None => spec_parse_hundredths(s@) is None,
        },
{
    let n = s.unicode_len();
    let neg = n > 0 && s.get_char(0) == '-';
    let ss = if neg {
        s.substring_char(1, n)
    } else {
        s
    };
    let ghost b = ss@;
    proof {
        if neg {
            assert(s@.subrange(1, n as int) =~= s@.drop_first());
        }
    }
    let m = if neg {
        n - 1
    } else {
        n
    };
    assert(m == b.len());
    // find the first dot
    let mut k: usize = 0;
    while k < m && ss.get_char(k) != '.'
        invariant
            ss@ == b,
            m == b.len() <= s@.len(),
            k <= m,
            forall|j: int| 0 <= j < k ==> b[j] != '.',
        decreases m - k,
    {
        k += 1;
    }
    proof {
        lemma_dot_split(b, k as int);
    }
    if k == 0 || k > 15 {
        return None;
    }
    let vi = match parse_digits(ss, 0, k) {
        Option::Some(v) => v,
        Option::None => {
            proof {
                assert(b.subrange(0, k as int) =~= int_part(b));
            }
            return None;
        },
    };
    proof {
        assert(b.subrange(0, k as int) =~= int_part(b));
        lemma_digits_val_bound(int_part(b));
        reveal_with_fuel(pow10, 16);
    }
    let mut fr: u64 = 0;
    if k < m {
        // fractional digits follow the dot
        if k + 1 == m {
            return None;
        }
        let ghost f = b.skip(k + 1);
        let mut j: usize = k + 1;
        while j < m
            invariant
                ss@ == b,
                m == b.len() <= s@.len(),
                k + 1 <= j <= m,
                f == b.skip(k + 1),
                forall|i: int| 0 <= i < j - k - 1 ==> digit_val(f[i]) < 10,
            decreases m - j,
        {
            let d = digit_value(ss.get_char(j));
            if d >= 10 {
                assert(digit_val(f[j - k - 1]) >= 10);
                return None;
            }
            j += 1;
        }
        assert(all_digits(f));
        let d1 = digit_value(ss.get_char(k + 1));
        let d2 = if k + 2 < m {
            digit_value(ss.get_char(k + 2))
        } else {
            0
        };
        let d3 = if k + 3 < m {
            digit_value(ss.get_char(k + 3))
        } else {
            0
        };
        fr = d1 * 10 + d2 + (if d3 >= 5 {
            1
        } else {
            0
        });
        assert(fr == frac_hundredths(f));
    }
    let v = vi * 100 + fr;
    if neg {
        Some(-(v as i64))
    } else {
        Some(v as i64)
    }
}

/// Whether the views of two string slices are the same character sequence.
pub fn str_eq(a: &str, b: &str) -> (r: bool)
    ensures
        r == (a@ == b@),
{
    let an = a.unicode_len();
    let bn = b.unicode_len();
    if an != bn {
        return false;
    }
    let mut i: usize = 0;
    while i < an
        invariant
            an == a@.len(),
            bn == b@.len(),
            an == bn,
            i <= an,
            forall|j: int| 0 <= j < i ==> a@[j] == b@[j],
        decreases an - i,
    {
        if a.get_char(i) != b.get_char(i) {
            return false;
        }
        i += 1;
    }
    assert(a@ =~= b@);
    true
}

} // verus!
