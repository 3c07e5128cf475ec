//! Community-local calendar arithmetic.
//!
//! Timestamps are seconds since the Unix epoch (UTC); a community stores a
//! fixed offset in seconds.  The trigger window is a fixed hour (modulo 12)
//! and minute of the community-local clock.

use vstd::arithmetic::div_mod::{
    lemma_fundamental_div_mod, lemma_fundamental_div_mod_converse_div,
    lemma_fundamental_div_mod_converse_mod,
};
use vstd::prelude::*;

verus! {

pub const SECONDS_PER_DAY: u32 = 86400;

pub const SECONDS_PER_HOUR: u32 = 3600;

pub const SECONDS_PER_MINUTE: u32 = 60;

/// The trigger fires when the local hour modulo 12 equals this hour ...
pub const TARGET_HOUR: u32 = 4;

/// ... and the local minute equals this minute.
pub const TARGET_MINUTE: u32 = 20;

/// Local day number (days since the epoch, shifted by the community offset).
pub open spec fn local_day_of(ts: int, offset: int) -> int {
    (ts + offset) / 86400
}

/// Seconds elapsed since local midnight.
pub open spec fn second_of_day_of(ts: int, offset: int) -> int {
    (ts + offset) % 86400
}

/// Local hour of the day, `0 ..= 23`.
pub open spec fn local_hour_of(ts: int, offset: int) -> int {
    second_of_day_of(ts, offset) / 3600
}

/// Local minute of the hour, `0 ..= 59`.
pub open spec fn local_minute_of(ts: int, offset: int) -> int {
    (second_of_day_of(ts, offset) % 3600) / 60
}

/// The in-window predicate: local hour modulo 12 and local minute match the
/// fixed target.
pub open spec fn in_window_at(ts: int, offset: int) -> bool {
    &&& local_hour_of(ts, offset) % 12 == TARGET_HOUR
    &&& local_minute_of(ts, offset) == TARGET_MINUTE
}

/// Two timestamps fall in the same occurrence of the window when they share
/// the local calendar date and the local hour.
pub open spec fn same_occurrence_at(ts_a: int, ts_b: int, offset: int) -> bool {
    &&& local_day_of(ts_a, offset) == local_day_of(ts_b, offset)
    &&& local_hour_of(ts_a, offset) == local_hour_of(ts_b, offset)
}

/// A legal fixed UTC offset: strictly less than one day in either direction.
pub open spec fn valid_utc_offset(seconds: int) -> bool {
    -86400 < seconds < 86400
}

/// Shift making any `i64 + i32` sum of seconds non-negative; a whole number
/// of days so that it vanishes under day arithmetic.
const BIAS_DAYS: i128 = 200_000_000_000_000;

const BIAS_SECONDS: i128 = 86400 * 200_000_000_000_000;

/// Splits a timestamp into the local day number and the second of that day.
pub fn split_local(ts: i64, offset: i32) -> (r: (i64, u32))
    ensures
        r.0 == local_day_of(ts as int, offset as int),
        r.1 == second_of_day_of(ts as int, offset as int),
{
    let s: i128 = ts as i128 + offset as i128;
    let biased: i128 = s + BIAS_SECONDS;
    let bu: u128 = biased as u128;
    let day_biased: u128 = bu / (SECONDS_PER_DAY as u128);
    let sod: u128 = bu % (SECONDS_PER_DAY as u128);
    let day: i64 = (day_biased as i64) - (BIAS_DAYS as i64);
    proof {
        lemma_fundamental_div_mod(bu as int, 86400);
        assert(ts + offset == day * 86400 + sod);
        lemma_fundamental_div_mod_converse_div(ts + offset, 86400, day as int, sod as int);
        lemma_fundamental_div_mod_converse_mod(ts + offset, 86400, day as int, sod as int);
    }
    (day, sod as u32)
}

/// Community-local hour of the day for a timestamp.
pub fn local_hour(ts: i64, offset: i32) -> (h: u32)
    ensures
        h == local_hour_of(ts as int, offset as int),
{
    let r: (i64, u32) = split_local(ts, offset);
    r.1 / SECONDS_PER_HOUR
}

/// Community-local minute of the hour for a timestamp.
pub fn local_minute(ts: i64, offset: i32) -> (m: u32)
    ensures
        m == local_minute_of(ts as int, offset as int),
{
    let r: (i64, u32) = split_local(ts, offset);
    (r.1 % SECONDS_PER_HOUR) / SECONDS_PER_MINUTE
}

/// Does the timestamp land inside the trigger window of the community-local
/// clock?
pub fn in_window(ts: i64, offset: i32) -> (r: bool)
    ensures
        r == in_window_at(ts as int, offset as int),
{
    let h: u32 = local_hour(ts, offset);
    let m: u32 = local_minute(ts, offset);
    h % 12 == TARGET_HOUR && m == TARGET_MINUTE
}

/// Do two timestamps fall in the same occurrence of the window (same local
/// date, same local hour)?
pub fn same_occurrence(ts_a: i64, ts_b: i64, offset: i32) -> (r: bool)
    ensures
        r == same_occurrence_at(ts_a as int, ts_b as int, offset as int),
{
    let a: (i64, u32) = split_local(ts_a, offset);
    let b: (i64, u32) = split_local(ts_b, offset);
    a.0 == b.0 && a.1 / SECONDS_PER_HOUR == b.1 / SECONDS_PER_HOUR
}

/// Is `seconds` a legal fixed UTC offset?
pub fn validate_utc_offset(seconds: i32) -> (r: bool)
    ensures
        r == valid_utc_offset(seconds as int),
{
    let day: i32 = SECONDS_PER_DAY as i32;
    -day < seconds && seconds < day
}

} // verus!
