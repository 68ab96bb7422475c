//! Labels shown in the interface: durations, track counts, row numbers.
use vstd::prelude::*;
use vstd::arithmetic::div_mod::lemma_fundamental_div_mod;
use crate::text::{append_decimal_i64, append_decimal_u64, decimal, decimal_nat, push_char};

verus! {

/// Whole minutes of `secs` seconds, truncated toward zero (`secs / 60`).
pub open spec fn minutes_of(secs: int) -> int {
    if secs >= 0 {
        secs / 60
    } else {
        -((-secs) / 60)
    }
}

/// The seconds left over, with the sign of `secs` (`secs % 60`).
pub open spec fn seconds_of(secs: int) -> int {
    secs - 60 * minutes_of(secs)
}

/// `{:02}` of a number: zero-padded to two characters.
pub open spec fn two_digits(r: int) -> Seq<char> {
    if 0 <= r < 10 {
        seq!['0'] + decimal(r)
    } else {
        decimal(r)
    }
}

/// `m:ss` for a duration in seconds.
pub open spec fn duration_text(secs: int) -> Seq<char> {
    decimal(minutes_of(secs)) + ":"@ + two_digits(seconds_of(secs))
}

/// Format a duration in seconds as `m:ss`.
pub fn fmt_duration(secs: i64) -> (s: String)
    ensures
        s@ == duration_text(secs as int),
{
    let mut s = String::new();
    if secs >= 0 {
        let m: i64 = secs / 60;
        let r: i64 = secs % 60;
        append_decimal_i64(&mut s, m);
        push_char(&mut s, ':');
        if r < 10 {
            push_char(&mut s, '0');
        }
        append_decimal_i64(&mut s, r);
        proof {
            lemma_fundamental_div_mod(secs as int, 60);
        }
        assert(minutes_of(secs as int) == m);
        assert(seconds_of(secs as int) == r);
        proof {
            reveal_strlit(":");
        }
        assert(s@ =~= duration_text(secs as int));
    } else {
        let magnitude: u64 = if secs == i64::MIN {
            9223372036854775808u64
        } else {
            (-secs) as u64
        };
        let m: i64 = -((magnitude / 60) as i64);
        let r: i64 = -((magnitude % 60) as i64);
        append_decimal_i64(&mut s, m);
        push_char(&mut s, ':');
        if r == 0 {
            push_char(&mut s, '0');
        }
        append_decimal_i64(&mut s, r);
        proof {
            lemma_fundamental_div_mod(magnitude as int, 60);
        }
        assert(minutes_of(secs as int) == m);
        assert(seconds_of(secs as int) == r);
        proof {
            reveal_strlit(":");
        }
        assert(s@ =~= duration_text(secs as int));
    }
    s
}

/// "1 track" / "N tracks", with the correct singular.
pub open spec fn track_count_text(n: int) -> Seq<char> {
    if n == 1 {
        "1 track"@
    } else {
        decimal(n) + " tracks"@
    }
}

/// "1 track" / "N tracks" with correct singular.
pub fn plural_tracks(n: i64) -> (s: String)
    ensures
        s@ == track_count_text(n as int),
{
    if n == 1 {
        String::from_str("1 track")
    } else {
        let mut s = String::new();
        append_decimal_i64(&mut s, n);
        s.append(" tracks");
        assert(s@ =~= track_count_text(n as int));
        s
    }
}

/// The line under a playlist's name in the sidebar.
pub open spec fn playlist_subtitle_text(count: int) -> Seq<char> {
    "Playlist \u{b7} "@ + track_count_text(count)
}

/// The line under a playlist's name in the sidebar: `Playlist · N tracks`.
pub fn playlist_subtitle(count: i64) -> (s: String)
    ensures
        s@ == playlist_subtitle_text(count as int),
{
    let mut s = String::from_str("Playlist \u{b7} ");
    let tail = plural_tracks(count);
    s.append(tail.as_str());
    s
}

/// The number shown on the row at `position` (rows count from 1).
pub fn track_number(position: usize) -> (s: String)
    requires
        position < usize::MAX,
    ensures
        s@ == decimal_nat(position as nat + 1),
{
    let mut s = String::new();
    append_decimal_u64(&mut s, (position + 1) as u64);
    assert(s@ =~= decimal_nat(position as nat + 1));
    s
}

} // verus!
