use raudio::display::{fmt_duration, playlist_subtitle, plural_tracks, track_number};
use raudio::text::{contains_str, decimal_string, decimal_string_usize, parse_usize, trim};

#[test]
fn fmt_duration_examples() {
    assert_eq!(fmt_duration(0), "0:00");
    assert_eq!(fmt_duration(5), "0:05");
    assert_eq!(fmt_duration(65), "1:05");
    assert_eq!(fmt_duration(600), "10:00");
    assert_eq!(fmt_duration(3599), "59:59");
    assert_eq!(fmt_duration(3600), "60:00");
}

#[test]
fn fmt_duration_negative_values_follow_truncating_division() {
    assert_eq!(fmt_duration(-5), "0:-5");
    assert_eq!(fmt_duration(-60), "-1:00");
    assert_eq!(fmt_duration(-65), "-1:-5");
    assert_eq!(fmt_duration(-610), "-10:-10");
}

#[test]
fn fmt_duration_agrees_with_format() {
    let mut values: Vec<i64> = (-200..200).collect();
    values.extend_from_slice(&[i64::MIN, i64::MIN + 1, i64::MAX, i64::MAX - 59, 86_399, -86_399]);
    for secs in values {
        assert_eq!(fmt_duration(secs), format!("{}:{:02}", secs / 60, secs % 60), "secs = {secs}");
    }
}

#[test]
fn plural_tracks_examples() {
    assert_eq!(plural_tracks(1), "1 track");
    assert_eq!(plural_tracks(0), "0 tracks");
    assert_eq!(plural_tracks(2), "2 tracks");
    assert_eq!(plural_tracks(-1), "-1 tracks");
    assert_eq!(plural_tracks(i64::MAX), format!("{} tracks", i64::MAX));
}

#[test]
fn playlist_subtitle_examples() {
    assert_eq!(playlist_subtitle(1), "Playlist \u{b7} 1 track");
    assert_eq!(playlist_subtitle(12), "Playlist \u{b7} 12 tracks");
}

#[test]
fn track_number_counts_from_one() {
    assert_eq!(track_number(0), "1");
    assert_eq!(track_number(9), "10");
}

#[test]
fn decimal_strings_agree_with_to_string() {
    for n in [0i64, 7, 10, 99, 100, -1, -10, 1234567, i64::MIN, i64::MAX] {
        assert_eq!(decimal_string(n), n.to_string());
    }
    for n in [0usize, 5, 42, usize::MAX] {
        assert_eq!(decimal_string_usize(n), n.to_string());
    }
}

#[test]
fn parse_usize_agrees_with_std_parse() {
    let max = usize::MAX.to_string();
    let over = format!("{}0", usize::MAX);
    let cases = [
        "0", "7", "+7", "007", "", "+", "-", "-1", "-0", "1a", " 1", "1 ", "+-1", "++1",
        "\u{0661}", max.as_str(), over.as_str(), "99999999999999999999999",
    ];
    for c in cases {
        assert_eq!(parse_usize(c), c.parse::<usize>().ok(), "input {c:?}");
    }
}

#[test]
fn trim_agrees_with_str_trim() {
    let cases = [
        "", "   ", "abc", "  abc  ", "\t\nab c\r\n", "\u{3000}name\u{2003}", "\u{85}x\u{a0}",
        "a\u{200b}", "\u{1680}\u{2028}\u{2029}\u{202f}\u{205f}", "  mixed \u{b} spaces \u{c}",
    ];
    for c in cases {
        assert_eq!(trim(c), c.trim(), "input {c:?}");
    }
}

#[test]
fn contains_str_agrees_with_str_contains() {
    let cases = [
        ("hello", ""), ("", ""), ("", "a"), ("hello", "ell"), ("hello", "hello"),
        ("hello", "helloo"), ("aaab", "aab"), ("caf\u{e9}", "\u{e9}"), ("abc", "ac"),
    ];
    for (h, n) in cases {
        assert_eq!(contains_str(h, n), h.contains(n), "{h:?} / {n:?}");
    }
}
