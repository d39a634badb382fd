//! Capture times, time-zone offsets and sub-second counts.
use vstd::prelude::*;
use vstd::string::StringExecFns;
use vstd::string::StrSliceExecFns;
use crate::text::{dec, decimal_text};
use chrono::{Datelike, NaiveDate, NaiveDateTime, Timelike};
use crate::rational::uR64;
use crate::gps::den_of;

verus! {

/// The three moments an image records.
#[derive(Clone, Copy, Debug, PartialEq, Eq, Structural)]
pub enum ExifTime {
    DateTimeOriginal,
    CreateDate,
    ModifyDate,
}

pub open spec fn is_digit(c: char) -> bool {
    '0' <= c && c <= '9'
}

/// The number two decimal digit characters write.
pub open spec fn two_digits(a: char, b: char) -> nat {
    ((a as nat - '0' as nat) * 10 + (b as nat - '0' as nat)) as nat
}

/// A number below one hundred, padded to two digits.
pub open spec fn pad2(n: nat) -> Seq<char> {
    if n < 10 {
        seq!['0'] + dec(n)
    } else {
        dec(n)
    }
}

/// A time-zone offset from UTC, `+HH:MM` or `-HH:MM`.
#[derive(Clone, Copy, Debug, PartialEq, Eq, Structural)]
pub struct TimeOffset {
    pub sign: bool,
    pub hour: u8,
    pub minute: u8,
}

impl TimeOffset {
    /// The offsets that exist: whole or half hours, at most `+14:00` east and `-12:30` west.
    pub open spec fn valid_parts(sign: bool, hour: nat, minute: nat) -> bool {
        &&& minute == 0 || minute == 30
        &&& hour <= 14
        &&& !(hour == 14 && minute == 30)
        &&& !(hour >= 13 && !sign)
    }

    /// What a text of the form `±HH:MM` denotes, when it is well formed and a valid offset.
    pub open spec fn parse(s: Seq<char>) -> Option<TimeOffset> {
        if s.len() == 6 && (s[0] == '+' || s[0] == '-') && is_digit(s[1]) && is_digit(s[2]) && s[3] == ':'
            && is_digit(s[4]) && is_digit(s[5]) && Self::valid_parts(
            s[0] == '+',
            two_digits(s[1], s[2]),
            two_digits(s[4], s[5]),
        ) {
            Some(TimeOffset { sign: s[0] == '+', hour: two_digits(s[1], s[2]) as u8, minute: two_digits(s[4], s[5]) as u8 })
        } else {
            None
        }
    }

    pub open spec fn text(&self) -> Seq<char> {
        (if self.sign { seq!['+'] } else { seq!['-'] }) + pad2(self.hour as nat) + seq![':'] + pad2(self.minute as nat)
    }

    /// Reads `±HH:MM`; malformed or impossible offsets give nothing.
    pub fn from_str(s: &str) -> (r: Option<Self>)
        ensures
            r == Self::parse(s@),
    {
        if s.unicode_len() != 6 {
            return None;
        }
        let c0 = s.get_char(0);
        let c1 = s.get_char(1);
        let c2 = s.get_char(2);
        let c3 = s.get_char(3);
        let c4 = s.get_char(4);
        let c5 = s.get_char(5);
        if !(c0 == '+' || c0 == '-') || c3 != ':' {
            return None;
        }
        if !('0' <= c1 && c1 <= '9' && '0' <= c2 && c2 <= '9' && '0' <= c4 && c4 <= '9' && '0' <= c5 && c5 <= '9') {
            return None;
        }
        let sign = c0 == '+';
        let hour: u8 = ((c1 as u32 - '0' as u32) * 10 + (c2 as u32 - '0' as u32)) as u8;
        let minute: u8 = ((c4 as u32 - '0' as u32) * 10 + (c5 as u32 - '0' as u32)) as u8;
        if (minute != 0 && minute != 30) || hour > 14 || (hour == 14 && minute == 30) || (hour >= 13 && !sign) {
            return None;
        }
        Some(TimeOffset { sign, hour, minute })
    }

    /// `±HH:MM`.
    pub fn to_string(&self) -> (r: String)
        ensures
            r@ == self.text(),
    {
        let mut s = if self.sign { String::from_str("+") } else { String::from_str("-") };
        let h = pad2_text(self.hour);
        s.append(h.as_str());
        s.append(":");
        let m = pad2_text(self.minute);
        s.append(m.as_str());
        proof {
            reveal_strlit("+");
            reveal_strlit("-");
            reveal_strlit(":");
        }
        s
    }
}

fn pad2_text(n: u8) -> (r: String)
    ensures
        r@ == pad2(n as nat),
{
    let t = decimal_text(n as u64);
    if n < 10 {
        let mut s = String::from_str("0");
        s.append(t.as_str());
        proof {
            reveal_strlit("0");
        }
        s
    } else {
        t
    }
}

/// A calendar date and time of day, as the tag table writes it (`YYYY:MM:DD HH:MM:SS`).
#[derive(Clone, Copy, Debug, PartialEq, Eq, Structural)]
pub struct DateTime {
    pub year: i32,
    pub month: u32,
    pub day: u32,
    pub hour: u32,
    pub minute: u32,
    pub second: u32,
}

/// The date and time that chrono reads from a text in the format `%Y:%m:%d %H:%M:%S`, as
/// (year, month, day, hour, minute, second), if it reads one.
pub uninterp spec fn exif_datetime(s: Seq<char>) -> Option<(int, int, int, int, int, int)>;

impl DateTime {
    pub open spec fn parts(&self) -> (int, int, int, int, int, int) {
        (self.year as int, self.month as int, self.day as int, self.hour as int, self.minute as int, self.second as int)
    }
}

/// Relies on chrono's `NaiveDateTime::parse_from_str` with the format `%Y:%m:%d %H:%M:%S`, and on
/// the accessors of its result.
#[verifier::external_body]
pub fn parse_datetime(s: &str) -> (r: Option<DateTime>)
    ensures
        r is Some <==> exif_datetime(s@) is Some,
        r matches Some(d) ==> exif_datetime(s@) == Some(d.parts()),
{
    match NaiveDateTime::parse_from_str(s, "%Y:%m:%d %H:%M:%S") {
        Ok(t) => Some(DateTime {
            year: t.year(),
            month: t.month(),
            day: t.day(),
            hour: t.hour(),
            minute: t.minute(),
            second: t.second(),
        }),
        Err(_) => None,
    }
}

/// A calendar date, as the GPS date stamp writes it (`YYYY:MM:DD`).
#[derive(Clone, Copy, Debug, PartialEq, Eq, Structural)]
pub struct Date {
    pub year: i32,
    pub month: u32,
    pub day: u32,
}

/// A time of day with milliseconds, as the GPS time stamp holds it.
#[derive(Clone, Copy, Debug, PartialEq, Eq, Structural)]
pub struct Time {
    pub hour: u32,
    pub minute: u32,
    pub second: u32,
    pub milli: u32,
}

impl DateTime {
    /// The date part.
    pub open spec fn date(&self) -> Date {
        Date { year: self.year, month: self.month, day: self.day }
    }

    /// The time part, with no milliseconds.
    pub open spec fn time(&self) -> Time {
        Time { hour: self.hour, minute: self.minute, second: self.second, milli: 0 }
    }

    pub fn date_part(&self) -> (r: Date)
        ensures
            r == self.date(),
    {
        Date { year: self.year, month: self.month, day: self.day }
    }

    pub fn time_part(&self) -> (r: Time)
        ensures
            r == self.time(),
    {
        Time { hour: self.hour, minute: self.minute, second: self.second, milli: 0 }
    }
}

/// The date that chrono reads from a text in the format `%Y:%m:%d`, as (year, month, day), if it
/// reads one.
pub uninterp spec fn exif_date(s: Seq<char>) -> Option<(int, int, int)>;

/// Relies on chrono's `NaiveDate::parse_from_str` with the format `%Y:%m:%d`, and on the
/// accessors of its result.
#[verifier::external_body]
pub fn parse_date(s: &str) -> (r: Option<Date>)
    ensures
        r is Some <==> exif_date(s@) is Some,
        r matches Some(d) ==> exif_date(s@) == Some((d.year as int, d.month as int, d.day as int)),
{
    match NaiveDate::parse_from_str(s, "%Y:%m:%d") {
        Ok(d) => Some(Date { year: d.year(), month: d.month(), day: d.day() }),
        Err(_) => None,
    }
}

/// The whole part of a rational.
pub open spec fn whole(u: uR64) -> nat {
    u.nominator as nat / den_of(u)
}

/// Thousandths of the fractional part of a rational, rounded down.
pub open spec fn thousandths(u: uR64) -> nat {
    ((u.nominator as nat % den_of(u)) * 1000) / den_of(u)
}

/// The time that three rationals (hours, minutes, seconds) denote, when it is a time of day;
/// fewer rationals repeat the first.
pub open spec fn time_of(v: Seq<uR64>) -> Option<Time> {
    if v.len() == 0 {
        None
    } else {
        let h = v[0];
        let m = if v.len() > 1 { v[1] } else { v[0] };
        let sc = if v.len() > 2 { v[2] } else { v[0] };
        if whole(h) < 24 && whole(m) < 60 && whole(sc) < 60 {
            Some(Time { hour: whole(h) as u32, minute: whole(m) as u32, second: whole(sc) as u32, milli: thousandths(sc) as u32 })
        } else {
            None
        }
    }
}

fn whole_of(u: &uR64) -> (r: u32)
    ensures
        r == whole(*u),
{
    let d: u32 = if u.denominator == 0 { 1 } else { u.denominator };
    u.nominator / d
}

fn thousandths_of(u: &uR64) -> (r: u32)
    ensures
        r == thousandths(*u),
{
    let d: u64 = if u.denominator == 0 { 1 } else { u.denominator as u64 };
    let rem: u64 = u.nominator as u64 % d;
    assert(rem < d) by (nonlinear_arith)
        requires rem == u.nominator as u64 % d, d > 0;
    assert((rem as int * 1000) / (d as int) < 1000) by (nonlinear_arith)
        requires rem < d, d > 0;
    (rem * 1000 / d) as u32
}

/// Reads a GPS time stamp: hours, minutes and seconds as rationals.
pub fn parse_time(v: &[uR64]) -> (r: Option<Time>)
    ensures
        r == time_of(v@),
{
    if v.len() == 0 {
        return None;
    }
    let h = &v[0];
    let m = if v.len() > 1 { &v[1] } else { &v[0] };
    let sc = if v.len() > 2 { &v[2] } else { &v[0] };
    let hour = whole_of(h);
    let minute = whole_of(m);
    let second = whole_of(sc);
    if hour < 24 && minute < 60 && second < 60 {
        Some(Time { hour, minute, second, milli: thousandths_of(sc) })
    } else {
        None
    }
}

/// The number that a run of decimal digits writes.
pub open spec fn digits_value(s: Seq<char>) -> nat
    decreases s.len(),
{
    if s.len() == 0 {
        0
    } else {
        (digits_value(s.drop_last()) * 10 + (s.last() as nat - '0' as nat)) as nat
    }
}

pub open spec fn all_digits(s: Seq<char>) -> bool {
    forall|i: int| 0 <= i < s.len() ==> is_digit(#[trigger] s[i])
}

/// A 16-bit number in decimal, with an optional leading `+`.
pub open spec fn parse_u16_spec(s: Seq<char>) -> Option<u16> {
    let body = if s.len() > 0 && s[0] == '+' {
        s.skip(1)
    } else {
        s
    };
    if body.len() > 0 && all_digits(body) && digits_value(body) <= 65535 {
        Some(digits_value(body) as u16)
    } else {
        None
    }
}

proof fn lemma_prefix_value(s: Seq<char>, k: int)
    requires
        all_digits(s),
        0 <= k <= s.len(),
    ensures
        digits_value(s.take(k)) <= digits_value(s),
    decreases s.len() - k,
{
    if k < s.len() {
        lemma_prefix_value(s, k + 1);
        assert(s.take(k + 1).drop_last() =~= s.take(k));
        assert(is_digit(s[k]));
    } else {
        assert(s.take(k) =~= s);
    }
}

/// Reads a 16-bit number written in decimal.
pub fn parse_u16(s: &str) -> (r: Option<u16>)
    ensures
        r == parse_u16_spec(s@),
{
    let n = s.unicode_len();
    let start: usize = if n > 0 && s.get_char(0) == '+' { 1 } else { 0 };
    let ghost body = if s@.len() > 0 && s@[0] == '+' { s@.skip(1) } else { s@ };
    assert(body =~= s@.skip(start as int));
    if start >= n {
        return None;
    }
    let mut acc: u32 = 0;
    let mut i: usize = start;
    assert(body.take(0) =~= Seq::<char>::empty());
    while i < n
        invariant
            n == s@.len(),
            start <= i <= n,
            body == s@.skip(start as int),
            body == (if s@.len() > 0 && s@[0] == '+' { s@.skip(1) } else { s@ }),
            acc as nat == digits_value(body.take(i - start)),
            acc <= 65535,
            all_digits(body.take(i - start)),
        decreases n - i,
    {
        let c = s.get_char(i);
        assert(body[i - start] == c);
        assert(body.take(i - start + 1).drop_last() =~= body.take(i - start));
        if !('0' <= c && c <= '9') {
            assert(!is_digit(body[i - start]));
            assert(!all_digits(body));
            return None;
        }
        assert(body.take(i - start + 1).last() == c);
        let next: u32 = acc * 10 + (c as u32 - '0' as u32);
        if next > 65535 {
            proof {
                assert(digits_value(body.take(i - start + 1)) == next as nat);
                if all_digits(body) {
                    lemma_prefix_value(body, i - start + 1);
                }
            }
            return None;
        }
        acc = next;
        i = i + 1;
    }
    assert(body.take(n - start) =~= body);
    Some(acc as u16)
}

} // verus!
