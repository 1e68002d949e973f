use gitviz::util::fmt::{
    civil_from_days, format_iso, format_relative, format_relative_at, now_seconds, plural,
    short_hash, stamp_of_reading,
};
use gitviz::util::number::{decimal_string, parse_i64};
use gitviz::util::split::{split_chars, split_words};
use gitviz::util::text::{chars_of, is_whitespace, string_of, trim_chars};

#[test]
fn test_short_hash() {
    assert_eq!(short_hash("abc1234def567"), "abc1234");
    assert_eq!(short_hash("abc"), "abc");
}

#[test]
fn test_format_iso_epoch() {
    assert_eq!(format_iso(0), "1970-01-01 00:00:00 UTC");
}

#[test]
fn test_format_iso_negative_second() {
    assert_eq!(format_iso(-1), "1969-12-31 23:59:59 UTC");
}

#[test]
fn test_format_iso_extreme_timestamps() {
    let min = format_iso(i64::MIN);
    let max = format_iso(i64::MAX);
    assert!(min.ends_with(" UTC"));
    assert!(max.ends_with(" UTC"));
    assert!(min.contains(':'));
    assert!(max.contains(':'));
}

#[test]
fn short_hash_of_seven_and_of_none() {
    assert_eq!(short_hash("1234567"), "1234567");
    assert_eq!(short_hash(""), "");
    assert_eq!(short_hash("a\u{e9}\u{e9}\u{e9}\u{e9}"), "a\u{e9}\u{e9}\u{e9}");
}

#[test]
fn format_iso_exact_values() {
    assert_eq!(format_iso(1_700_000_000), "2023-11-14 22:13:20 UTC");
    assert_eq!(format_iso(951_782_400), "2000-02-29 00:00:00 UTC");
    assert_eq!(format_iso(951_868_799), "2000-02-29 23:59:59 UTC");
    assert_eq!(format_iso(-2_208_988_800), "1900-01-01 00:00:00 UTC");
    assert_eq!(format_iso(-62_135_596_800), "0001-01-01 00:00:00 UTC");
    assert_eq!(format_iso(-62_167_219_200), "0000-01-01 00:00:00 UTC");
    assert_eq!(format_iso(-62_167_219_201), "-001-12-31 23:59:59 UTC");
    assert_eq!(format_iso(253_402_300_800), "10000-01-01 00:00:00 UTC");
    assert_eq!(
        format_iso(i64::MAX),
        "292277026596-12-04 15:30:07 UTC"
    );
    assert_eq!(
        format_iso(i64::MIN),
        "-292277022657-01-27 08:29:52 UTC"
    );
}

#[test]
fn civil_dates_of_known_days() {
    assert_eq!(civil_from_days(0), (1970, 1, 1));
    assert_eq!(civil_from_days(-1), (1969, 12, 31));
    assert_eq!(civil_from_days(59), (1970, 3, 1));
    assert_eq!(civil_from_days(11_016), (2000, 2, 29));
    assert_eq!(civil_from_days(11_017), (2000, 3, 1));
    assert_eq!(civil_from_days(-25_509), (1900, 2, 28));
    assert_eq!(civil_from_days(-25_508), (1900, 3, 1));
    assert_eq!(civil_from_days(-719_468), (0, 3, 1));
    assert_eq!(civil_from_days(-719_469), (0, 2, 29));
}

#[test]
fn relative_times_by_unit() {
    let now = 1_000_000_000;
    assert_eq!(format_relative_at(now, now + 1), "in the future");
    assert_eq!(format_relative_at(now, now), "0 seconds ago");
    assert_eq!(format_relative_at(now, now - 1), "1 second ago");
    assert_eq!(format_relative_at(now, now - 59), "59 seconds ago");
    assert_eq!(format_relative_at(now, now - 60), "1 minute ago");
    assert_eq!(format_relative_at(now, now - 3_599), "59 minutes ago");
    assert_eq!(format_relative_at(now, now - 3_600), "1 hour ago");
    assert_eq!(format_relative_at(now, now - 86_399), "23 hours ago");
    assert_eq!(format_relative_at(now, now - 86_400), "1 day ago");
    assert_eq!(format_relative_at(now, now - 2_591_999), "29 days ago");
    assert_eq!(format_relative_at(now, now - 2_592_000), "1 month ago");
    assert_eq!(format_relative_at(now, now - 31_535_999), "12 months ago");
    assert_eq!(format_relative_at(now, now - 31_536_000), "1 year ago");
    assert_eq!(format_relative_at(now, now - 63_072_000), "2 years ago");
    assert_eq!(
        format_relative_at(i64::MAX, i64::MIN),
        "584942417355 years ago"
    );
    assert_eq!(format_relative_at(i64::MIN, i64::MAX), "in the future");
}

#[test]
fn relative_time_reads_the_clock() {
    assert!(format_relative(0).ends_with(" years ago"));
    assert_eq!(format_relative(i64::MAX), "in the future");
}

#[test]
fn plural_endings() {
    assert_eq!(plural(1), "");
    assert_eq!(plural(0), "s");
    assert_eq!(plural(2), "s");
    assert_eq!(plural(-1), "s");
}

#[test]
fn white_space_is_what_the_standard_library_calls_so() {
    let mut c = '\0';
    loop {
        assert_eq!(is_whitespace(c), c.is_whitespace(), "{:?}", c);
        if c == char::MAX {
            break;
        }
        c = char::from_u32(c as u32 + 1).unwrap_or('\u{e000}');
    }
}

#[test]
fn trimming_agrees_with_the_standard_library() {
    for s in ["", " ", "a", "  a b \n", "\u{a0}x\u{2003}", "\x1ea\x1f", "\t\r\n"] {
        assert_eq!(string_of(&trim_chars(&chars_of(s))), s.trim(), "{:?}", s);
    }
}

#[test]
fn splitting_agrees_with_the_standard_library() {
    for s in ["", "a", ",", "a,b", ",a,,b,", "a,b,c,d"] {
        let all: Vec<String> = split_chars(&chars_of(s), ',', 0).iter().map(string_of).collect();
        let want: Vec<&str> = s.split(',').collect();
        assert_eq!(all, want, "{:?}", s);
        for n in 1..5 {
            let some: Vec<String> =
                split_chars(&chars_of(s), ',', n).iter().map(string_of).collect();
            let want: Vec<&str> = s.splitn(n, ',').collect();
            assert_eq!(some, want, "{:?} {}", s, n);
        }
    }
    for s in ["", "  ", "a", " a  b\tc\n", "\u{2003}x y"] {
        let got: Vec<String> = split_words(&chars_of(s)).iter().map(string_of).collect();
        let want: Vec<&str> = s.split_whitespace().collect();
        assert_eq!(got, want, "{:?}", s);
    }
}

#[test]
fn numerals_agree_with_the_standard_library() {
    for n in [0u128, 1, 9, 10, 11, 99, 100, 12_345, u64::MAX as u128, u128::MAX] {
        assert_eq!(decimal_string(n), n.to_string());
    }
    for s in [
        "", "0", "-0", "+0", "7", "-7", "+7", "007", "--7", "7-", " 7", "7 ", "1_000", "0x10",
        "9223372036854775807", "9223372036854775808", "-9223372036854775808",
        "-9223372036854775809", "99999999999999999999999999999999999999999", "-", "+", "٣",
    ] {
        assert_eq!(parse_i64(&chars_of(s)), s.parse::<i64>().ok(), "{:?}", s);
    }
}

#[test]
fn time_stamps_of_clock_readings() {
    assert_eq!(stamp_of_reading(None), 0);
    assert_eq!(stamp_of_reading(Some(0)), 0);
    assert_eq!(stamp_of_reading(Some(1_700_000_000)), 1_700_000_000);
    assert_eq!(stamp_of_reading(Some(i64::MAX as u64)), i64::MAX);
    assert_eq!(stamp_of_reading(Some(1 << 63)), i64::MIN);
    assert_eq!(stamp_of_reading(Some(u64::MAX)), -1);
}

#[test]
fn the_clock_stands_after_the_year_2020() {
    assert!(now_seconds() > 1_577_836_800);
}
