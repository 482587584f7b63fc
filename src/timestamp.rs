//! The server's timestamp format, `YYYY-MM-DDTHH:MM:SS.fffZ`, read as seconds
//! since the Unix epoch (UTC).

use chrono::TimeZone;
use vstd::prelude::*;

verus! {

/// Why a timestamp could not be read.
#[derive(Debug, Clone, Copy, PartialEq, Eq, Structural)]
pub enum TimestampError {
    /// The text does not have the shape `YYYY-MM-DDTHH:MM:SS.fffZ`, or names
    /// no real calendar date and time of day.
    MalformedTimestamp,
}

pub open spec fn is_leap_year(y: int) -> bool {
    y % 4 == 0 && (y % 100 != 0 || y % 400 == 0)
}

pub open spec fn days_in_month(y: int, m: int) -> int {
    if m == 2 {
        if is_leap_year(y) { 29 } else { 28 }
    } else if m == 4 || m == 6 || m == 9 || m == 11 {
        30
    } else {
        31
    }
}

/// Days in the months of year `y` that come before month `m`.
pub open spec fn days_before_month(y: int, m: int) -> int
    decreases m,
{
    if m <= 1 { 0 } else { days_before_month(y, m - 1) + days_in_month(y, m - 1) }
}

/// Days from 0000-01-01 to `y`-01-01 in the proleptic Gregorian calendar, for `y >= 0`.
pub open spec fn days_before_year(y: int) -> int {
    365 * y + (y + 3) / 4 - (y + 99) / 100 + (y + 399) / 400
}

/// Days from 1970-01-01 to the given date.
pub open spec fn epoch_day(y: int, m: int, d: int) -> int {
    days_before_year(y) + days_before_month(y, m) + d - 1 - days_before_year(1970)
}

/// Seconds from 1970-01-01T00:00:00Z to the given UTC date and time.
pub open spec fn epoch_seconds(y: int, m: int, d: int, h: int, mi: int, s: int) -> int {
    epoch_day(y, m, d) * 86400 + h * 3600 + mi * 60 + s
}

/// The date exists and the time is a time of day (no leap second).
pub open spec fn is_valid_date_time(y: int, m: int, d: int, h: int, mi: int, s: int) -> bool {
    &&& 1 <= m <= 12
    &&& 1 <= d <= days_in_month(y, m)
    &&& 0 <= h < 24
    &&& 0 <= mi < 60
    &&& 0 <= s < 60
}

/// Relies on chrono's `Utc.with_ymd_and_hms(..).single()` and `DateTime::timestamp`:
/// `None` for a date or time that does not exist, else the seconds since the epoch.
#[verifier::external_body]
fn utc_timestamp(year: i32, month: u32, day: u32, hour: u32, min: u32, sec: u32) -> (r: Option<i64>)
    requires
        0 <= year <= 9999,
    ensures
        r is Some <==> is_valid_date_time(year as int, month as int, day as int, hour as int, min as int, sec as int),
        r is Some ==> r->0 == epoch_seconds(year as int, month as int, day as int, hour as int, min as int, sec as int),
{
    chrono::Utc.with_ymd_and_hms(year, month, day, hour, min, sec).single().map(|t| t.timestamp())
}

pub open spec fn is_digit(c: char) -> bool {
    '0' <= c <= '9'
}

pub open spec fn digits_at(s: Seq<char>, start: int, n: int) -> bool {
    forall|i: int| start <= i < start + n ==> #[trigger] is_digit(s[i])
}

/// The decimal number written by the `n` characters of `s` from `start` on.
pub open spec fn number_at(s: Seq<char>, start: int, n: int) -> int
    decreases n,
{
    if n <= 0 {
        0
    } else {
        number_at(s, start, n - 1) * 10 + (s[start + n - 1] as int - '0' as int)
    }
}

/// `s` has the shape `YYYY-MM-DDTHH:MM:SS.fffZ`.
pub open spec fn has_timestamp_shape(s: Seq<char>) -> bool {
    &&& s.len() == 24
    &&& digits_at(s, 0, 4)
    &&& s[4] == '-'
    &&& digits_at(s, 5, 2)
    &&& s[7] == '-'
    &&& digits_at(s, 8, 2)
    &&& s[10] == 'T'
    &&& digits_at(s, 11, 2)
    &&& s[13] == ':'
    &&& digits_at(s, 14, 2)
    &&& s[16] == ':'
    &&& digits_at(s, 17, 2)
    &&& s[19] == '.'
    &&& digits_at(s, 20, 3)
    &&& s[23] == 'Z'
}

pub open spec fn timestamp_fields_valid(s: Seq<char>) -> bool {
    is_valid_date_time(
        number_at(s, 0, 4),
        number_at(s, 5, 2),
        number_at(s, 8, 2),
        number_at(s, 11, 2),
        number_at(s, 14, 2),
        number_at(s, 17, 2),
    )
}

pub open spec fn timestamp_seconds(s: Seq<char>) -> int {
    epoch_seconds(
        number_at(s, 0, 4),
        number_at(s, 5, 2),
        number_at(s, 8, 2),
        number_at(s, 11, 2),
        number_at(s, 14, 2),
        number_at(s, 17, 2),
    )
}

/// What reading the optional timestamp text gives: `-1` when there is none.
/// The fraction of a second is read as digits and otherwise ignored.
pub open spec fn timestamp_of(s: Option<Seq<char>>) -> Result<int, TimestampError> {
    match s {
        None => Ok(-1),
        Some(t) => if has_timestamp_shape(t) && timestamp_fields_valid(t) {
            Ok(timestamp_seconds(t))
        } else {
            Err(TimestampError::MalformedTimestamp)
        },
    }
}

pub open spec fn text_of(s: Option<&str>) -> Option<Seq<char>> {
    match s {
        Some(t) => Some(t@),
        None => None,
    }
}

fn is_digit_char(c: char) -> (r: bool)
    ensures
        r == is_digit(c),
{
    '0' <= c && c <= '9'
}

fn digits_here(s: &str, start: usize, n: usize) -> (r: bool)
    requires
        start + n <= s@.len(),
        start + n <= 24,
    ensures
        r == digits_at(s@, start as int, n as int),
{
    let mut i: usize = 0;
    while i < n
        invariant
            i <= n,
            start + n <= s@.len(),
            start + n <= 24,
            digits_at(s@, start as int, i as int),
        decreases n - i,
    {
        if !is_digit_char(s.get_char(start + i)) {
            return false;
        }
        i = i + 1;
    }
    true
}

fn number_here(s: &str, start: usize, n: usize) -> (r: u32)
    requires
        start + n <= s@.len(),
        start + n <= 24,
        n <= 4,
        digits_at(s@, start as int, n as int),
    ensures
        r == number_at(s@, start as int, n as int),
        r < 10000,
{
    let mut r: u32 = 0;
    let mut i: usize = 0;
    while i < n
        invariant
            i <= n <= 4,
            start + n <= s@.len(),
            start + n <= 24,
            digits_at(s@, start as int, n as int),
            r == number_at(s@, start as int, i as int),
            i == 0 ==> r == 0,
            i <= 1 ==> r < 10,
            i <= 2 ==> r < 100,
            i <= 3 ==> r < 1000,
            r < 10000,
        decreases n - i,
    {
        let c = s.get_char(start + i);
        assert(is_digit(s@[start + i]));
        r = r * 10 + (c as u32 - '0' as u32);
        i = i + 1;
    }
    r
}

fn shape_ok(s: &str) -> (r: bool)
    ensures
        r == has_timestamp_shape(s@),
{
    if s.unicode_len() != 24 {
        return false;
    }
    digits_here(s, 0, 4) && s.get_char(4) == '-' && digits_here(s, 5, 2) && s.get_char(7) == '-'
        && digits_here(s, 8, 2) && s.get_char(10) == 'T' && digits_here(s, 11, 2)
        && s.get_char(13) == ':' && digits_here(s, 14, 2) && s.get_char(16) == ':'
        && digits_here(s, 17, 2) && s.get_char(19) == '.' && digits_here(s, 20, 3)
        && s.get_char(23) == 'Z'
}

/// Reads a timestamp such as `2022-05-17T14:55:23.276Z` as seconds since the
/// epoch; no text gives `-1`.
pub fn str_to_timestamp(s: Option<&str>) -> (r: Result<i64, TimestampError>)
    ensures
        match (r, timestamp_of(text_of(s))) {
            (Ok(v), Ok(w)) => v == w,
            (Err(e), Err(f)) => e == f,
            _ => false,
        },
{
    match s {
        None => Ok(-1),
        Some(t) => {
            if !shape_ok(t) {
                return Err(TimestampError::MalformedTimestamp);
            }
            let year = number_here(t, 0, 4);
            let month = number_here(t, 5, 2);
            let day = number_here(t, 8, 2);
            let hour = number_here(t, 11, 2);
            let min = number_here(t, 14, 2);
            let sec = number_here(t, 17, 2);
            match utc_timestamp(year as i32, month, day, hour, min, sec) {
                Some(v) => Ok(v),
                None => Err(TimestampError::MalformedTimestamp),
            }
        },
    }
}

} // verus!
