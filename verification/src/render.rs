//! Human-readable console lines: decimal rendering of durations and the
//! status messages printed when a track starts or is skipped.

use vstd::prelude::*;

verus! {

/// The decimal digit character for a value below ten.
pub open spec fn spec_digit(d: nat) -> char {
    if d == 0 {
        '0'
    } else if d == 1 {
        '1'
    } else if d == 2 {
        '2'
    } else if d == 3 {
        '3'
    } else if d == 4 {
        '4'
    } else if d == 5 {
        '5'
    } else if d == 6 {
        '6'
    } else if d == 7 {
        '7'
    } else if d == 8 {
        '8'
    } else {
        '9'
    }
}

/// The ordinary decimal rendering of a natural number, without leading
/// zeros (a single `'0'` for zero itself).
pub open spec fn spec_dec(n: nat) -> Seq<char>
    decreases n,
{
    if n < 10 {
        seq![spec_digit(n)]
    } else {
        spec_dec(n / 10).push(spec_digit(n % 10))
    }
}

fn digit_str(d: u64) -> (r: &'static str)
    requires
        d < 10,
    ensures
        r@ == seq![spec_digit(d as nat)],
{
    if d == 0 {
        proof {
            reveal_strlit("0");
            assert("0"@ =~= seq![spec_digit(0)]);
        }
        "0"
    } else if d == 1 {
        proof {
            reveal_strlit("1");
            assert("1"@ =~= seq![spec_digit(1)]);
        }
        "1"
    } else if d == 2 {
        proof {
            reveal_strlit("2");
            assert("2"@ =~= seq![spec_digit(2)]);
        }
        "2"
    } else if d == 3 {
        proof {
            reveal_strlit("3");
            assert("3"@ =~= seq![spec_digit(3)]);
        }
        "3"
    } else if d == 4 {
        proof {
            reveal_strlit("4");
            assert("4"@ =~= seq![spec_digit(4)]);
        }
        "4"
    } else if d == 5 {
        proof {
            reveal_strlit("5");
            assert("5"@ =~= seq![spec_digit(5)]);
        }
        "5"
    } else if d == 6 {
        proof {
            reveal_strlit("6");
            assert("6"@ =~= seq![spec_digit(6)]);
        }
        "6"
    } else if d == 7 {
        proof {
            reveal_strlit("7");
            assert("7"@ =~= seq![spec_digit(7)]);
        }
        "7"
    } else if d == 8 {
        proof {
            reveal_strlit("8");
            assert("8"@ =~= seq![spec_digit(8)]);
        }
        "8"
    } else {
        proof {
            reveal_strlit("9");
            assert("9"@ =~= seq![spec_digit(9)]);
        }
        "9"
    }
}

/// Renders a number in decimal.
pub fn u64_to_dec(n: u64) -> (r: String)
    ensures
        r@ == spec_dec(n as nat),
    decreases n,
{
    if n < 10 {
        String::from_str(digit_str(n))
    } else {
        let mut r = u64_to_dec(n / 10);
        r.append(digit_str(n % 10));
        proof {
            assert(r@ =~= spec_dec(n as nat));
        }
        r
    }
}

/// `[m:ss]` — whole minutes, then seconds zero-padded to two digits.
pub open spec fn spec_format_duration(total_secs: nat) -> Seq<char> {
    let pad: Seq<char> = if total_secs % 60 < 10 {
        seq!['0']
    } else {
        Seq::<char>::empty()
    };
    seq!['['] + spec_dec(total_secs / 60) + seq![':'] + pad + spec_dec(total_secs % 60) + seq![']']
}

/// Formats a playback duration given in whole seconds as `[m:ss]`.
pub fn format_duration(total_secs: u64) -> (r: String)
    ensures
        r@ == spec_format_duration(total_secs as nat),
{
    let minutes = u64_to_dec(total_secs / 60);
    let seconds = u64_to_dec(total_secs % 60);
    let mut r = String::from_str("[");
    r.append(minutes.as_str());
    r.append(":");
    if total_secs % 60 < 10 {
        r.append("0");
    }
    r.append(seconds.as_str());
    r.append("]");
    proof {
        reveal_strlit("[");
        reveal_strlit(":");
        reveal_strlit("0");
        reveal_strlit("]");
        assert(r@ =~= spec_format_duration(total_secs as nat));
    }
    r
}

/// The whole seconds in a duration given in microseconds.
pub fn duration_secs_from_micros(micros: u64) -> (r: u64)
    ensures
        r == micros / 1000000,
{
    micros / 1000000
}

/// The whole milliseconds in a duration given in microseconds.
pub fn duration_millis_from_micros(micros: u64) -> (r: u64)
    ensures
        r == micros / 1000,
{
    micros / 1000
}

/// The line announcing the track that starts playing.
pub open spec fn spec_now_playing_line(name: Seq<char>) -> Seq<char> {
    "Now playing: '"@ + name + "'"@
}

/// Builds the announcement printed when a track starts.
pub fn now_playing_line(name: &str) -> (r: String)
    ensures
        r@ == spec_now_playing_line(name@),
{
    let mut r = String::from_str("Now playing: '");
    r.append(name);
    r.append("'");
    proof {
        assert(r@ =~= spec_now_playing_line(name@));
    }
    r
}

/// The line reporting the formatted duration of the current track.
pub open spec fn spec_duration_line(total_secs: nat) -> Seq<char> {
    "Song Duration: "@ + spec_format_duration(total_secs)
}

/// Builds the duration report printed when a track starts.
pub fn duration_line(total_secs: u64) -> (r: String)
    ensures
        r@ == spec_duration_line(total_secs as nat),
{
    let mut r = String::from_str("Song Duration: ");
    let formatted = format_duration(total_secs);
    r.append(formatted.as_str());
    proof {
        assert(r@ =~= spec_duration_line(total_secs as nat));
    }
    r
}

/// The line reporting that the current track was skipped.
pub open spec fn spec_skipped_line(name: Seq<char>) -> Seq<char> {
    "Song skipped: '"@ + name + "'"@
}

/// Builds the report printed when a track is skipped.
pub fn skipped_line(name: &str) -> (r: String)
    ensures
        r@ == spec_skipped_line(name@),
{
    let mut r = String::from_str("Song skipped: '");
    r.append(name);
    r.append("'");
    proof {
        assert(r@ =~= spec_skipped_line(name@));
    }
    r
}

} // verus!
