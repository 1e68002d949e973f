//! Short hashes, and time stamps as text.

use vstd::prelude::*;
use vstd::string::StringSliceAdditionalSpecFns;
use vstd::utf8::{
    decode_utf8, decode_utf8_split, encode_utf8, encode_utf8_decode_utf8, encode_utf8_valid_utf8,
    is_char_boundary,
};

use crate::util::calendar::{
    civil_of_days, day_number, is_date, lemma_civil_of_days_counts_back,
};
use crate::util::number::{decimal, push_decimal};
use crate::util::text::string_of;

verus! {

/// The number of bytes that a short hash keeps of an id of `len` bytes.
pub open spec fn short_len(len: int) -> int {
    if len < 7 {
        len
    } else {
        7
    }
}

/// Whether an id can be cut to its short form: the cut does not fall inside
/// the encoding of a character.
pub open spec fn can_shorten(oid: Seq<char>) -> bool {
    is_char_boundary(encode_utf8(oid), short_len(encode_utf8(oid).len() as int))
}

/// The short form of an id: the characters that its first 7 bytes encode,
/// or all of a shorter one.
pub open spec fn short_of(oid: Seq<char>) -> Seq<char> {
    decode_utf8(encode_utf8(oid).subrange(0, short_len(encode_utf8(oid).len() as int)))
}

/// Return the short hash: the first 7 bytes of the id, or all of a shorter
/// one. The cut must not fall inside a character, as it never does in an id
/// of ASCII characters.
pub fn short_hash(oid: &str) -> (short: &str)
    requires
        can_shorten(oid@),
    ensures
        short@ == short_of(oid@),
        short.spec_bytes() == oid.spec_bytes().subrange(
            0,
            short_len(oid.spec_bytes().len() as int),
        ),
        short@.is_prefix_of(oid@),
{
    let len = oid.as_bytes().len();
    let end = if len < 7 {
        len
    } else {
        7
    };
    let (short, rest) = oid.split_at(end);
    proof {
        let bytes = oid.spec_bytes();
        encode_utf8_valid_utf8(oid@);
        decode_utf8_split(bytes, end as int);
        encode_utf8_decode_utf8(oid@);
        encode_utf8_decode_utf8(short@);
        encode_utf8_decode_utf8(rest@);
    }
    short
}

/// The plural ending for a count: none for one, `s` otherwise.
pub open spec fn plural_of(n: int) -> Seq<char> {
    if n == 1 {
        ""@
    } else {
        "s"@
    }
}

/// The plural ending for a count.
pub fn plural(n: i64) -> (ending: &'static str)
    ensures
        ending@ == plural_of(n as int),
{
    if n == 1 {
        ""
    } else {
        "s"
    }
}

/// How long ago something was, as a count of a unit: `3 days ago`.
pub open spec fn ago(count: int, unit: Seq<char>) -> Seq<char> {
    decimal(count as nat) + " "@ + unit + plural_of(count) + " ago"@
}

/// The time stamp `ts` as seen from the time `now`, both in seconds since
/// the epoch, in the largest unit that has begun: seconds, minutes, hours,
/// days, months of 30 days, years of 365 days.
pub open spec fn relative_of(now: int, ts: int) -> Seq<char> {
    let diff = now - ts;
    if diff < 0 {
        "in the future"@
    } else if diff < 60 {
        ago(diff, "second"@)
    } else if diff < 3_600 {
        ago(diff / 60, "minute"@)
    } else if diff < 86_400 {
        ago(diff / 3_600, "hour"@)
    } else if diff < 2_592_000 {
        ago(diff / 86_400, "day"@)
    } else if diff < 31_536_000 {
        ago(diff / 2_592_000, "month"@)
    } else {
        ago(diff / 31_536_000, "year"@)
    }
}

/// `count` of `unit` ago, as a string.
fn ago_string(count: i64, unit: &str) -> (s: String)
    requires
        0 <= count,
    ensures
        s@ == ago(count as int, unit@),
{
    let mut digits: Vec<char> = Vec::new();
    push_decimal(&mut digits, count as u128);
    let mut s = string_of(&digits);
    s.append(" ");
    s.append(unit);
    s.append(plural(count));
    s.append(" ago");
    s
}

/// Format a Unix time stamp as a human-readable time relative to `now`.
pub fn format_relative_at(now: i64, ts: i64) -> (s: String)
    ensures
        s@ == relative_of(now as int, ts as int),
{
    // The difference of two time stamps may not fit in 64 bits.
    let diff: i128 = now as i128 - ts as i128;
    if diff < 0 {
        "in the future".to_owned()
    } else if diff < 60 {
        ago_string(diff as i64, "second")
    } else if diff < 3_600 {
        ago_string((diff / 60) as i64, "minute")
    } else if diff < 86_400 {
        ago_string((diff / 3_600) as i64, "hour")
    } else if diff < 2_592_000 {
        ago_string((diff / 86_400) as i64, "day")
    } else if diff < 31_536_000 {
        ago_string((diff / 2_592_000) as i64, "month")
    } else {
        ago_string((diff / 31_536_000) as i64, "year")
    }
}

/// A point in time of the system clock, as the standard library has it.
#[verifier::external_type_specification]
#[verifier::external_body]
pub struct ExSystemTime(std::time::SystemTime);

/// The error of the standard library for a time that lies before another.
#[verifier::external_type_specification]
#[verifier::external_body]
pub struct ExSystemTimeError(std::time::SystemTimeError);

/// Reads the system clock.
///
/// Trusted: this is `SystemTime::now` of the standard library. Nothing is
/// claimed of the time it returns.
#[verifier::external_body]
fn clock_now() -> std::time::SystemTime {
    std::time::SystemTime::now()
}

/// The time that has passed since the Unix epoch at the time `t`, or an error
/// where `t` lies before the epoch.
///
/// Trusted: this is `SystemTime::duration_since` of the standard library,
/// called with `UNIX_EPOCH`. Nothing is claimed of its result.
#[verifier::external_body]
fn since_epoch(t: &std::time::SystemTime) -> Result<
    std::time::Duration,
    std::time::SystemTimeError,
> {
    t.duration_since(std::time::UNIX_EPOCH)
}

/// The whole seconds of a duration.
///
/// Trusted: this is `Duration::as_secs` of the standard library. Nothing is
/// claimed of the number it returns.
#[verifier::external_body]
fn whole_seconds(d: &std::time::Duration) -> u64 {
    d.as_secs()
}

/// The system clock's present time in whole seconds since the Unix epoch;
/// 0 where the clock stands before the epoch.
pub fn now_seconds() -> i64 {
    let reading = match since_epoch(&clock_now()) {
        Ok(d) => Some(whole_seconds(&d)),
        Err(_) => None,
    };
    stamp_of_reading(reading)
}

/// Format a Unix time stamp as a human-readable relative time, as seen from
/// the system clock's present time.
pub fn format_relative(ts: i64) -> (s: String)
    ensures
        exists|now: i64| s@ == relative_of(now as int, ts as int),
{
    format_relative_at(now_seconds(), ts)
}

/// The time stamp that a reading of the clock stands for: the whole seconds
/// that have passed since the epoch, taken as a signed number of 64 bits (of
/// a count beyond their range, its lower 64 bits), or 0 where the clock stood
/// before the epoch and gave no reading.
pub open spec fn stamp_of(reading: Option<u64>) -> i64 {
    match reading {
        Some(seconds) => seconds as i64,
        None => 0,
    }
}

/// The time stamp for a reading of the clock: its seconds, or 0 for none.
pub fn stamp_of_reading(reading: Option<u64>) -> (stamp: i64)
    ensures
        stamp == stamp_of(reading),
        reading is Some && reading->0 <= i64::MAX ==> stamp == reading->0,
{
    match reading {
        Some(seconds) => #[verifier::truncate] (seconds as i64),
        None => 0,
    }
}

/// Convert days since the Unix epoch (1970-01-01) to year, month and day:
/// to the one date of the calendar that lies that many days after the epoch.
pub fn civil_from_days(days_since_epoch: i128) -> (date: (i128, i128, i128))
    requires
        days_since_epoch + 719_468 <= i128::MAX,
    ensures
        is_date(date.0 as int, date.1 as int, date.2 as int),
        day_number(date.0 as int, date.1 as int, date.2 as int) == days_since_epoch,
        (date.0 as int, date.1 as int, date.2 as int) == civil_of_days(days_since_epoch as int),
{
    proof {
        lemma_civil_of_days_counts_back(days_since_epoch as int);
    }
    // Shift from the Unix epoch to 0000-03-01.
    let z = days_since_epoch + 719_468;
    let era = z.checked_div_euclid(146_097).unwrap();
    let doe = z - era * 146_097;
    let yoe = (doe - doe / 1_460 + doe / 36_524 - doe / 146_096) / 365;
    let doy = doe - (365 * yoe + yoe / 4 - yoe / 100);
    let mp = (5 * doy + 2) / 153;
    let day = doy - (153 * mp + 2) / 5 + 1;
    let month = if mp < 10 {
        mp + 3
    } else {
        mp - 9
    };
    let year = if month <= 2 {
        yoe + era * 400 + 1
    } else {
        yoe + era * 400
    };
    (year, month, day)
}

/// `n` zeros.
pub open spec fn zeros(n: int) -> Seq<char> {
    Seq::new(
        if n > 0 {
            n as nat
        } else {
            0
        },
        |i: int| '0',
    )
}

/// The decimal numeral of `n`, filled with zeros to at least `width`
/// characters; a minus sign comes first and counts as one of them.
pub open spec fn padded(n: int, width: int) -> Seq<char> {
    if n < 0 {
        seq!['-'] + zeros(width - 1 - decimal((-n) as nat).len()) + decimal((-n) as nat)
    } else {
        zeros(width - decimal(n as nat).len()) + decimal(n as nat)
    }
}

/// Appends the numeral of `n`, filled with zeros to `width` characters.
fn push_padded(out: &mut Vec<char>, n: i128, width: usize)
    requires
        n > i128::MIN,
    ensures
        final(out)@ == old(out)@ + padded(n as int, width as int),
{
    let mut digits: Vec<char> = Vec::new();
    let mut room = width;
    if n < 0 {
        push_decimal(&mut digits, (-n) as u128);
        out.push('-');
        if room > 0 {
            room -= 1;
        }
    } else {
        push_decimal(&mut digits, n as u128);
    }
    let ghost signed = out@;
    let mut i: usize = digits.len();
    while i < room
        invariant
            digits.len() <= i,
            i <= room || i == digits.len(),
            out@ == signed + zeros(i - digits.len()),
        decreases room - i,
    {
        out.push('0');
        i += 1;
    }
    let ghost filled = out@;
    let mut j: usize = 0;
    while j < digits.len()
        invariant
            j <= digits.len(),
            out@ == filled + digits@.take(j as int),
        decreases digits.len() - j,
    {
        out.push(digits[j]);
        j += 1;
    }
}

/// The time stamp `ts`, in seconds since the epoch, as date and time of day
/// in UTC: `1970-01-01 00:00:00 UTC`.
pub open spec fn iso_of(ts: int) -> Seq<char> {
    let date = civil_of_days(ts / 86_400);
    let time_of_day = ts % 86_400;
    padded(date.0, 4) + seq!['-'] + padded(date.1, 2) + seq!['-'] + padded(date.2, 2) + seq![' ']
        + padded(time_of_day / 3_600, 2) + seq![':'] + padded((time_of_day % 3_600) / 60, 2)
        + seq![':'] + padded(time_of_day % 60, 2) + " UTC"@
}

/// Format a Unix time stamp as an ISO-8601 date string (UTC).
pub fn format_iso(ts: i64) -> (s: String)
    ensures
        s@ == iso_of(ts as int),
{
    let ts = ts as i128;
    let days_since_epoch = ts.checked_div_euclid(86_400).unwrap();
    let time_of_day = ts.checked_rem_euclid(86_400).unwrap();
    let h = time_of_day / 3_600;
    let m = (time_of_day % 3_600) / 60;
    let s = time_of_day % 60;

    let (year, month, day) = civil_from_days(days_since_epoch);
    let mut out: Vec<char> = Vec::new();
    push_padded(&mut out, year, 4);
    out.push('-');
    push_padded(&mut out, month, 2);
    out.push('-');
    push_padded(&mut out, day, 2);
    out.push(' ');
    push_padded(&mut out, h, 2);
    out.push(':');
    push_padded(&mut out, m, 2);
    out.push(':');
    push_padded(&mut out, s, 2);
    let mut text = string_of(&out);
    text.append(" UTC");
    text
}

} // verus!
