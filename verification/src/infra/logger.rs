//! The text of the log: each line starts with the wall-clock time in
//! Brasília time (UTC-3), and the log file is rotated once it grows too large.

use vstd::prelude::*;
use crate::text::{digit_char, digit_str};

verus! {

broadcast use vstd::string::group_string_axioms;

/// Seconds in a day.
pub const SECS_PER_DAY: u64 = 86400;

/// The offset of Brasília time from UTC, in seconds.
pub const UTC_OFFSET_SECS: u64 = 10800;

/// `n`, below 100, written with two digits.
pub open spec fn two_digits(n: nat) -> Seq<char> {
    seq![digit_char(n / 10), digit_char(n % 10)]
}

/// Seconds since local midnight, `unix_secs` seconds after the epoch.
pub open spec fn local_secs_of_day(unix_secs: nat) -> nat {
    if unix_secs < UTC_OFFSET_SECS {
        ((unix_secs + SECS_PER_DAY - UTC_OFFSET_SECS) % (SECS_PER_DAY as int)) as nat
    } else {
        ((unix_secs - UTC_OFFSET_SECS) % (SECS_PER_DAY as int)) as nat
    }
}

/// The local time `HH:MM:SS` at `unix_secs` seconds after the epoch.
pub open spec fn clock_text(unix_secs: nat) -> Seq<char> {
    let t = local_secs_of_day(unix_secs);
    two_digits(t / 3600) + seq![':'] + two_digits((t % 3600) / 60) + seq![':'] + two_digits(t % 60)
}

fn push_two_digits(s: &mut String, n: u64)
    requires
        n < 100,
    ensures
        final(s)@ == old(s)@ + two_digits(n as nat),
{
    s.append(digit_str(n / 10));
    s.append(digit_str(n % 10));
}

/// The local time `HH:MM:SS`, in Brasília time, at `unix_secs` seconds after
/// the epoch; an instant before 03:00 UTC on the first day counts on the day
/// before.
pub fn format_clock(unix_secs: u64) -> (r: String)
    ensures
        r@ == clock_text(unix_secs as nat),
        r@.len() == 8,
{
    let secs_of_day = if unix_secs < UTC_OFFSET_SECS {
        (unix_secs + SECS_PER_DAY - UTC_OFFSET_SECS) % SECS_PER_DAY
    } else {
        (unix_secs - UTC_OFFSET_SECS) % SECS_PER_DAY
    };
    let hours = secs_of_day / 3600;
    let minutes = (secs_of_day % 3600) / 60;
    let seconds = secs_of_day % 60;
    let mut r = String::new();
    push_two_digits(&mut r, hours);
    r.append(":");
    push_two_digits(&mut r, minutes);
    r.append(":");
    push_two_digits(&mut r, seconds);
    proof {
        reveal_strlit(":");
    }
    r
}

/// The size past which the log file is set aside and a new one started: 5 MiB.
pub const MAX_LOG_SIZE_BYTES: u64 = 5242880;

/// Whether a log file of `len` bytes is to be rotated.
pub fn needs_rotation(len: u64) -> (r: bool)
    ensures
        r == (len > MAX_LOG_SIZE_BYTES),
{
    len > MAX_LOG_SIZE_BYTES
}

/// The line written to the log file for `msg` at level `level`, at
/// `unix_secs` seconds after the epoch.
pub fn log_line(unix_secs: u64, level: &str, msg: &str) -> (r: String)
    ensures
        r@ == clock_text(unix_secs as nat) + " ["@ + level@ + "] "@ + msg@,
{
    let mut r = format_clock(unix_secs);
    r.append(" [");
    r.append(level);
    r.append("] ");
    r.append(msg);
    r
}

} // verus!
