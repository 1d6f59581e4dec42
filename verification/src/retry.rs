//! The retry hint parser: reads the raw value of a `retry-after` response
//! header. The header carries either a non-negative count of seconds or an
//! HTTP date in the preferred fixed-layout GMT form, e.g. `Sun, 06 Nov
//! 1994 08:49:37 GMT` — by design the only date layout accepted here;
//! the two obsolete layouts (two-digit years with dashed dates, and the
//! C asctime form) yield no hint, as any other value does. Absence of a
//! hint is never an error.

use vstd::prelude::*;
use vstd::string::StrSliceExecFns;

verus! {

/// A calendar point in time as an HTTP date header carries it
/// (day of month, month, year and time of day, always in GMT).
#[derive(Clone, Copy, Debug, PartialEq, Eq, Structural)]
pub struct HttpDate {
    pub day: u8,
    pub month: u8,
    pub year: u16,
    pub hour: u8,
    pub minute: u8,
    pub second: u8,
}

/// A retry hint taken from a `retry-after` response header: either a
/// relative delay in whole seconds or an absolute point in time.
#[derive(Clone, Copy, Debug, PartialEq, Eq, Structural)]
pub enum RetryAfter {
    Seconds(u64),
    DateTime(HttpDate),
}

pub open spec fn is_digit(c: char) -> bool {
    48 <= c as int && c as int <= 57
}

pub open spec fn digit_val(c: char) -> int {
    c as int - 48
}

pub open spec fn all_digits(s: Seq<char>) -> bool {
    forall|i: int| 0 <= i < s.len() ==> is_digit(#[trigger] s[i])
}

/// The value of a string of decimal digits, most significant first.
pub open spec fn digits_val(s: Seq<char>) -> int
    decreases s.len(),
{
    if s.len() <= 0 {
        0
    } else {
        digits_val(s.drop_last()) * 10 + digit_val(s.last())
    }
}

/// A header value that is a plain delay in seconds: one or more decimal
/// digits whose value fits in a u64.
pub open spec fn is_delay_seconds(s: Seq<char>) -> bool {
    s.len() > 0 && all_digits(s) && digits_val(s) <= u64::MAX
}

proof fn lemma_digits_val_nonneg(s: Seq<char>)
    requires
        all_digits(s),
    ensures
        digits_val(s) >= 0,
    decreases s.len(),
{
    if s.len() > 0 {
        assert(all_digits(s.drop_last()));
        lemma_digits_val_nonneg(s.drop_last());
    }
}

/// A digit string is worth at least as much as any of its prefixes.
proof fn lemma_digits_val_prefix_le(s: Seq<char>, i: int)
    requires
        all_digits(s),
        0 <= i <= s.len(),
    ensures
        digits_val(s.take(i)) <= digits_val(s),
    decreases s.len() - i,
{
    if i == s.len() {
        assert(s.take(i) =~= s);
    } else {
        assert(s.take(i + 1).drop_last() =~= s.take(i));
        assert(s.take(i + 1).last() == s[i]);
        assert(all_digits(s.take(i)));
        lemma_digits_val_nonneg(s.take(i));
        assert(digits_val(s.take(i + 1)) == digits_val(s.take(i)) * 10 + digit_val(s[i]));
        lemma_digits_val_prefix_le(s, i + 1);
    }
}

/// Parses a plain decimal delay, rejecting empty text, non-digits, and
/// values past u64::MAX.
fn parse_seconds(s: &str) -> (r: Option<u64>)
    ensures
        is_delay_seconds(s@) ==> r == Some(digits_val(s@) as u64),
        !is_delay_seconds(s@) ==> r is None,
{
    let n = s.unicode_len();
    if n == 0 {
        return None;
    }
    let mut acc: u64 = 0;
    let mut i: usize = 0;
    while i < n
        invariant
            0 <= i <= n,
            n == s@.len(),
            all_digits(s@.take(i as int)),
            acc == digits_val(s@.take(i as int)),
        decreases n - i,
    {
        let c = s.get_char(i);
        let cv = c as u32;
        if cv < 48 || cv > 57 {
            assert(!is_digit(s@[i as int]));
            return None;
        }
        let d: u64 = (cv - 48) as u64;
        if acc > (u64::MAX - d) / 10 {
            proof {
                let m = u64::MAX as int;
                let a = acc as int;
                let dd = d as int;
                assert(10 * ((m - dd) / 10) + 9 >= m - dd) by (nonlinear_arith)
                    requires
                        0 <= dd <= 9,
                        m == u64::MAX as int,
                ;
                assert(a * 10 + dd > m) by (nonlinear_arith)
                    requires
                        a >= (m - dd) / 10 + 1,
                        10 * ((m - dd) / 10) + 9 >= m - dd,
                        0 <= dd,
                ;
                assert(s@.take(i as int + 1).drop_last() =~= s@.take(i as int));
                assert(digits_val(s@.take(i as int + 1)) == a * 10 + dd);
                if all_digits(s@) {
                    lemma_digits_val_prefix_le(s@, i as int + 1);
                    assert(digits_val(s@) > u64::MAX);
                }
                assert(!is_delay_seconds(s@));
            }
            return None;
        }
        proof {
            assert(s@.take(i as int + 1).drop_last() =~= s@.take(i as int));
            assert(s@.take(i as int + 1).last() == s@[i as int]);
        }
        acc = acc * 10 + d;
        i = i + 1;
    }
    proof {
        assert(s@.take(n as int) =~= s@);
        lemma_digits_val_nonneg(s@);
    }
    Some(acc)
}

/// The three-letter day names an HTTP date may begin with.
pub open spec fn is_day_name(a: char, b: char, c: char) -> bool {
    ||| a == 'M' && b == 'o' && c == 'n'
    ||| a == 'T' && b == 'u' && c == 'e'
    ||| a == 'W' && b == 'e' && c == 'd'
    ||| a == 'T' && b == 'h' && c == 'u'
    ||| a == 'F' && b == 'r' && c == 'i'
    ||| a == 'S' && b == 'a' && c == 't'
    ||| a == 'S' && b == 'u' && c == 'n'
}

/// The month a three-letter month name denotes, 1 through 12.
pub open spec fn month_num(a: char, b: char, c: char) -> Option<u8> {
    if a == 'J' && b == 'a' && c == 'n' {
        Some(1u8)
    } else if a == 'F' && b == 'e' && c == 'b' {
        Some(2u8)
    } else if a == 'M' && b == 'a' && c == 'r' {
        Some(3u8)
    } else if a == 'A' && b == 'p' && c == 'r' {
        Some(4u8)
    } else if a == 'M' && b == 'a' && c == 'y' {
        Some(5u8)
    } else if a == 'J' && b == 'u' && c == 'n' {
        Some(6u8)
    } else if a == 'J' && b == 'u' && c == 'l' {
        Some(7u8)
    } else if a == 'A' && b == 'u' && c == 'g' {
        Some(8u8)
    } else if a == 'S' && b == 'e' && c == 'p' {
        Some(9u8)
    } else if a == 'O' && b == 'c' && c == 't' {
        Some(10u8)
    } else if a == 'N' && b == 'o' && c == 'v' {
        Some(11u8)
    } else if a == 'D' && b == 'e' && c == 'c' {
        Some(12u8)
    } else {
        None
    }
}

pub open spec fn is_leap_year(y: int) -> bool {
    y % 4 == 0 && (y % 100 != 0 || y % 400 == 0)
}

pub open spec fn days_in_month(m: int, y: int) -> int {
    if m == 2 {
        if is_leap_year(y) {
            29
        } else {
            28
        }
    } else if m == 4 || m == 6 || m == 9 || m == 11 {
        30
    } else {
        31
    }
}

pub open spec fn two_digit_val(s: Seq<char>, i: int) -> int {
    digit_val(s[i]) * 10 + digit_val(s[i + 1])
}

pub open spec fn four_digit_val(s: Seq<char>, i: int) -> int {
    ((digit_val(s[i]) * 10 + digit_val(s[i + 1])) * 10 + digit_val(s[i + 2])) * 10 + digit_val(
        s[i + 3],
    )
}

/// The fixed 29-character layout of an HTTP date:
/// `day "," SP 2DIGIT SP month SP 4DIGIT SP 2DIGIT ":" 2DIGIT ":" 2DIGIT SP "GMT"`.
pub open spec fn fixdate_shape(s: Seq<char>) -> bool {
    &&& s.len() == 29
    &&& is_day_name(s[0], s[1], s[2])
    &&& s[3] == ',' && s[4] == ' '
    &&& is_digit(s[5]) && is_digit(s[6])
    &&& s[7] == ' '
    &&& month_num(s[8], s[9], s[10]) is Some
    &&& s[11] == ' '
    &&& is_digit(s[12]) && is_digit(s[13]) && is_digit(s[14]) && is_digit(s[15])
    &&& s[16] == ' '
    &&& is_digit(s[17]) && is_digit(s[18])
    &&& s[19] == ':'
    &&& is_digit(s[20]) && is_digit(s[21])
    &&& s[22] == ':'
    &&& is_digit(s[23]) && is_digit(s[24])
    &&& s[25] == ' '
    &&& s[26] == 'G' && s[27] == 'M' && s[28] == 'T'
}

/// An HTTP date in the fixed GMT layout whose fields denote a real
/// calendar date and time of day.
pub open spec fn is_imf_fixdate(s: Seq<char>) -> bool {
    &&& fixdate_shape(s)
    &&& 1 <= two_digit_val(s, 5)
    &&& two_digit_val(s, 5) <= days_in_month(month_num(s[8], s[9], s[10])->0 as int, four_digit_val(s, 12))
    &&& two_digit_val(s, 17) <= 23
    &&& two_digit_val(s, 20) <= 59
    &&& two_digit_val(s, 23) <= 59
}

impl HttpDate {
    /// A real calendar date and time of day.
    pub open spec fn wf(self) -> bool {
        &&& 1 <= self.month <= 12
        &&& 1 <= self.day <= days_in_month(self.month as int, self.year as int)
        &&& self.hour <= 23
        &&& self.minute <= 59
        &&& self.second <= 59
    }
}

/// The date an HTTP date string in the fixed layout denotes.
pub open spec fn date_of(s: Seq<char>) -> HttpDate {
    HttpDate {
        day: two_digit_val(s, 5) as u8,
        month: month_num(s[8], s[9], s[10])->0,
        year: four_digit_val(s, 12) as u16,
        hour: two_digit_val(s, 17) as u8,
        minute: two_digit_val(s, 20) as u8,
        second: two_digit_val(s, 23) as u8,
    }
}

/// What a `retry-after` header value denotes: a delay in seconds, an
/// absolute HTTP date, or nothing. Only the preferred fixed GMT layout
/// of an HTTP date counts; the obsolete layouts denote no hint.
pub open spec fn retry_after_spec(s: Seq<char>) -> Option<RetryAfter> {
    if is_delay_seconds(s) {
        Some(RetryAfter::Seconds(digits_val(s) as u64))
    } else if is_imf_fixdate(s) {
        Some(RetryAfter::DateTime(date_of(s)))
    } else {
        None
    }
}

fn is_day_name_at(a: char, b: char, c: char) -> (r: bool)
    ensures
        r == is_day_name(a, b, c),
{
    (a == 'M' && b == 'o' && c == 'n') || (a == 'T' && b == 'u' && c == 'e') || (a == 'W' && b
        == 'e' && c == 'd') || (a == 'T' && b == 'h' && c == 'u') || (a == 'F' && b == 'r' && c
        == 'i') || (a == 'S' && b == 'a' && c == 't') || (a == 'S' && b == 'u' && c == 'n')
}

fn month_from_chars(a: char, b: char, c: char) -> (r: Option<u8>)
    ensures
        r == month_num(a, b, c),
{
    if a == 'J' && b == 'a' && c == 'n' {
        Some(1)
    } else if a == 'F' && b == 'e' && c == 'b' {
        Some(2)
    } else if a == 'M' && b == 'a' && c == 'r' {
        Some(3)
    } else if a == 'A' && b == 'p' && c == 'r' {
        Some(4)
    } else if a == 'M' && b == 'a' && c == 'y' {
        Some(5)
    } else if a == 'J' && b == 'u' && c == 'n' {
        Some(6)
    } else if a == 'J' && b == 'u' && c == 'l' {
        Some(7)
    } else if a == 'A' && b == 'u' && c == 'g' {
        Some(8)
    } else if a == 'S' && b == 'e' && c == 'p' {
        Some(9)
    } else if a == 'O' && b == 'c' && c == 't' {
        Some(10)
    } else if a == 'N' && b == 'o' && c == 'v' {
        Some(11)
    } else if a == 'D' && b == 'e' && c == 'c' {
        Some(12)
    } else {
        None
    }
}

fn digit_at(s: &str, i: usize) -> (r: Option<u32>)
    requires
        i < s@.len(),
    ensures
        is_digit(s@[i as int]) ==> r == Some(digit_val(s@[i as int]) as u32),
        !is_digit(s@[i as int]) ==> r is None,
{
    let cv = s.get_char(i) as u32;
    if 48 <= cv && cv <= 57 {
        Some(cv - 48)
    } else {
        None
    }
}

fn two_digits_at(s: &str, i: usize) -> (r: Option<u8>)
    requires
        s@.len() == 29,
        i + 1 < s@.len(),
    ensures
        is_digit(s@[i as int]) && is_digit(s@[i as int + 1]) ==> r == Some(
            two_digit_val(s@, i as int) as u8,
        ),
        !(is_digit(s@[i as int]) && is_digit(s@[i as int + 1])) ==> r is None,
{
    match (digit_at(s, i), digit_at(s, i + 1)) {
        (Some(a), Some(b)) => Some((a * 10 + b) as u8),
        _ => None,
    }
}

fn four_digits_at(s: &str, i: usize) -> (r: Option<u16>)
    requires
        s@.len() == 29,
        i + 3 < s@.len(),
    ensures
        is_digit(s@[i as int]) && is_digit(s@[i as int + 1]) && is_digit(s@[i as int + 2])
            && is_digit(s@[i as int + 3]) ==> r == Some(four_digit_val(s@, i as int) as u16),
        !(is_digit(s@[i as int]) && is_digit(s@[i as int + 1]) && is_digit(s@[i as int + 2])
            && is_digit(s@[i as int + 3])) ==> r is None,
{
    match (digit_at(s, i), digit_at(s, i + 1), digit_at(s, i + 2), digit_at(s, i + 3)) {
        (Some(a), Some(b), Some(c), Some(d)) => Some((((a * 10 + b) * 10 + c) * 10 + d) as u16),
        _ => None,
    }
}

fn days_in_month_exec(m: u8, y: u16) -> (r: u8)
    ensures
        r == days_in_month(m as int, y as int),
{
    if m == 2 {
        if y % 4 == 0 && (y % 100 != 0 || y % 400 == 0) {
            29
        } else {
            28
        }
    } else if m == 4 || m == 6 || m == 9 || m == 11 {
        30
    } else {
        31
    }
}

/// Parses an HTTP date in the fixed GMT layout, rejecting everything
/// else, malformed layouts and impossible calendar dates alike.
fn parse_http_date(s: &str) -> (r: Option<HttpDate>)
    ensures
        is_imf_fixdate(s@) ==> r == Some(date_of(s@)),
        !is_imf_fixdate(s@) ==> r is None,
        r matches Some(d) ==> d.wf(),
{
    let n = s.unicode_len();
    if n != 29 {
        return None;
    }
    if !is_day_name_at(s.get_char(0), s.get_char(1), s.get_char(2)) {
        return None;
    }
    if !(s.get_char(3) == ',' && s.get_char(4) == ' ') {
        return None;
    }
    let day = match two_digits_at(s, 5) {
        Some(d) => d,
        None => {
            return None;
        },
    };
    if s.get_char(7) != ' ' {
        return None;
    }
    let month = match month_from_chars(s.get_char(8), s.get_char(9), s.get_char(10)) {
        Some(m) => m,
        None => {
            return None;
        },
    };
    if s.get_char(11) != ' ' {
        return None;
    }
    let year = match four_digits_at(s, 12) {
        Some(y) => y,
        None => {
            return None;
        },
    };
    if s.get_char(16) != ' ' {
        return None;
    }
    let hour = match two_digits_at(s, 17) {
        Some(h) => h,
        None => {
            return None;
        },
    };
    if s.get_char(19) != ':' {
        return None;
    }
    let minute = match two_digits_at(s, 20) {
        Some(m) => m,
        None => {
            return None;
        },
    };
    if s.get_char(22) != ':' {
        return None;
    }
    let second = match two_digits_at(s, 23) {
        Some(x) => x,
        None => {
            return None;
        },
    };
    if !(s.get_char(25) == ' ' && s.get_char(26) == 'G' && s.get_char(27) == 'M' && s.get_char(28)
        == 'T') {
        return None;
    }
    if day < 1 || day > days_in_month_exec(month, year) {
        return None;
    }
    if hour > 23 || minute > 59 || second > 59 {
        return None;
    }
    Some(HttpDate { day, month, year, hour, minute, second })
}

impl RetryAfter {
    /// Parse the raw value of a `retry-after` header. A string of decimal
    /// digits is a delay in seconds; an HTTP date in the fixed GMT layout
    /// is an absolute retry point; any other value carries no hint.
    pub fn from_str(s: &str) -> (r: Option<RetryAfter>)
        ensures
            r == retry_after_spec(s@),
            r matches Some(RetryAfter::DateTime(d)) ==> d.wf(),
    {
        match parse_seconds(s) {
            Some(secs) => Some(RetryAfter::Seconds(secs)),
            None => match parse_http_date(s) {
                Some(d) => Some(RetryAfter::DateTime(d)),
                None => None,
            },
        }
    }
}

} // verus!
