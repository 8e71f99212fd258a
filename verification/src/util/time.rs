//! Timestamps: the clock, and how a Unix second is shown.
use vstd::prelude::*;
use crate::num::{decimal, digit, digit_char, u64_text};
use crate::text::{concat, push_char};

verus! {

/// The current Unix second (`chrono::Utc::now().timestamp()`).
///
/// `Utc::now` panics for a system clock before 1970 and chrono only represents years up to
/// 262142, so a value that comes back lies in `0..2^43`. Which value comes back is the clock's.
#[verifier::external_body]
pub fn now_secs() -> (t: i64)
    ensures
        0 <= t < 0x800_0000_0000,
{
    chrono::Utc::now().timestamp()
}

/// The current Unix millisecond (`chrono::Utc::now().timestamp_millis()`), in `0..2^53`.
#[verifier::external_body]
pub fn now_millis() -> (t: i64)
    ensures
        0 <= t < 0x20_0000_0000_0000,
{
    chrono::Utc::now().timestamp_millis()
}

/// Time zone in which timestamps are shown: UTC+8.
pub const DISPLAY_TZ_OFFSET_SECS: i64 = 28800;

/// The proleptic Gregorian date `(year, month, day)` of the day `days` after 1970-01-01,
/// by Howard Hinnant's days-to-civil algorithm (eras of 400 years that start on March 1).
pub open spec fn civil_from_days(days: int) -> (int, int, int) {
    let z = days + 719468;
    let era = z / 146097;
    let doe = z % 146097;
    let yoe = (doe - doe / 1460 + doe / 36524 - doe / 146096) / 365;
    let doy = doe - (365 * yoe + yoe / 4 - yoe / 100);
    let mp = (5 * doy + 2) / 153;
    let d = doy - (153 * mp + 2) / 5 + 1;
    let m = if mp < 10 { mp + 3 } else { mp - 9 };
    (yoe + era * 400 + (if m <= 2 { 1int } else { 0int }), m, d)
}

/// Two digits, with a leading zero below ten.
pub open spec fn pad2(n: int) -> Seq<char> {
    seq![digit_char(n / 10), digit_char(n % 10)]
}

/// At least four digits, padded with zeros.
pub open spec fn pad4(n: nat) -> Seq<char> {
    if n < 10 {
        seq!['0', '0', '0'] + decimal(n)
    } else if n < 100 {
        seq!['0', '0'] + decimal(n)
    } else if n < 1000 {
        seq!['0'] + decimal(n)
    } else {
        decimal(n)
    }
}

pub open spec fn year_text(y: int) -> Seq<char> {
    if y < 0 {
        seq!['-'] + pad4((-y) as nat)
    } else {
        pad4(y as nat)
    }
}

/// `yyyy-MM-dd HH:mm:ss` of a Unix second, in the display time zone.
pub open spec fn ts_text(ts: int) -> Seq<char> {
    let local = ts + DISPLAY_TZ_OFFSET_SECS;
    let date = civil_from_days(local / 86400);
    let s = local % 86400;
    year_text(date.0) + seq!['-'] + pad2(date.1) + seq!['-'] + pad2(date.2) + seq![' '] + pad2(
        s / 3600,
    ) + seq![':'] + pad2(s % 3600 / 60) + seq![':'] + pad2(s % 60)
}

/// The day of era and year of era stay in range, so none of the steps goes below zero.
proof fn lemma_era_steps(doe: int)
    requires
        0 <= doe < 146097,
    ensures
        ({
            let yoe = (doe - doe / 1460 + doe / 36524 - doe / 146096) / 365;
            let doy = doe - (365 * yoe + yoe / 4 - yoe / 100);
            &&& doe - doe / 1460 + doe / 36524 - doe / 146096 >= 0
            &&& 0 <= yoe <= 399
            &&& 0 <= doy <= 365
        }),
{
}

proof fn lemma_month_steps(doy: int)
    requires
        0 <= doy <= 365,
    ensures
        ({
            let mp = (5 * doy + 2) / 153;
            let d = doy - (153 * mp + 2) / 5 + 1;
            &&& 0 <= mp <= 11
            &&& 1 <= d <= 31
        }),
{
}

fn push_pad2(s: &mut String, n: u64)
    requires
        n < 100,
    ensures
        final(s)@ == old(s)@ + pad2(n as int),
{
    push_char(s, digit(n / 10));
    push_char(s, digit(n % 10));
}

fn year_digits(n: u64) -> (t: String)
    ensures
        t@ == pad4(n as nat),
{
    let dec = u64_text(n);
    if n < 10 {
        let t = concat("000", dec.as_str());
        proof {
            reveal_strlit("000");
        }
        t
    } else if n < 100 {
        let t = concat("00", dec.as_str());
        proof {
            reveal_strlit("00");
        }
        t
    } else if n < 1000 {
        let t = concat("0", dec.as_str());
        proof {
            reveal_strlit("0");
        }
        t
    } else {
        dec
    }
}

/// Days are counted from a day that lies a billion 400-year eras before the epoch, so that
/// every step works on naturals.
const ERA_SHIFT_DAYS: u128 = 146097000000000;

/// The date of the day `days - ERA_SHIFT_DAYS` (days after 1970-01-01).
fn civil_of_shifted(days: u128) -> (r: (i128, u128, u128))
    requires
        days <= 0x1_0000_0000_0000,
    ensures
        civil_from_days(days - ERA_SHIFT_DAYS) == (r.0 as int, r.1 as int, r.2 as int),
        1 <= r.1 <= 12,
        1 <= r.2 <= 31,
        -0x1_0000_0000_0000 <= r.0 <= 0x1_0000_0000_0000,
{
    let z: u128 = days + 719468;
    let era: u128 = z / 146097;
    let doe: u128 = z % 146097;
    proof {
        lemma_era_steps(doe as int);
    }
    let yoe: u128 = (doe - doe / 1460 + doe / 36524 - doe / 146096) / 365;
    let doy: u128 = doe - (365 * yoe + yoe / 4 - yoe / 100);
    proof {
        lemma_month_steps(doy as int);
    }
    let mp: u128 = (5 * doy + 2) / 153;
    let d: u128 = doy - (153 * mp + 2) / 5 + 1;
    let m: u128 = if mp < 10 { mp + 3 } else { mp - 9 };
    let y: i128 = (yoe as i128) + (era as i128) * 400 - 400000000000 + (if m <= 2 { 1i128 } else { 0i128 });
    proof {
        vstd::arithmetic::div_mod::lemma_fundamental_div_mod(z as int, 146097);
        vstd::arithmetic::div_mod::lemma_fundamental_div_mod_converse(
            days - ERA_SHIFT_DAYS + 719468,
            146097,
            era as int - 1000000000,
            doe as int,
        );
    }
    (y, m, d)
}

fn push_time(s: &mut String, sod: u64)
    requires
        sod < 86400,
    ensures
        final(s)@ == old(s)@ + pad2((sod / 3600) as int) + seq![':'] + pad2((sod % 3600 / 60) as int)
            + seq![':'] + pad2((sod % 60) as int),
{
    push_pad2(s, sod / 3600);
    push_char(s, ':');
    push_pad2(s, sod % 3600 / 60);
    push_char(s, ':');
    push_pad2(s, sod % 60);
}

fn date_text(y: i128, m: u64, d: u64) -> (s: String)
    requires
        -0x1_0000_0000_0000 <= y <= 0x1_0000_0000_0000,
        1 <= m <= 12,
        1 <= d <= 31,
    ensures
        s@ == year_text(y as int) + seq!['-'] + pad2(m as int) + seq!['-'] + pad2(d as int),
{
    let mut s = String::new();
    if y < 0 {
        push_char(&mut s, '-');
        let body = year_digits((-y) as u64);
        s = concat(s.as_str(), body.as_str());
    } else {
        s = year_digits(y as u64);
    }
    push_char(&mut s, '-');
    push_pad2(&mut s, m);
    push_char(&mut s, '-');
    push_pad2(&mut s, d);
    s
}

/// Formats a Unix second as `yyyy-MM-dd HH:mm:ss` in UTC+8.
pub fn fmt_ts(ts: i64) -> (s: String)
    ensures
        s@ == ts_text(ts as int),
{
    let t: i128 = ts as i128 + 28800 + 12622780800000000000;
    let tu: u128 = t as u128;
    let days: u128 = tu / 86400;
    let sod: u128 = tu % 86400;
    proof {
        let local = ts as int + DISPLAY_TZ_OFFSET_SECS;
        vstd::arithmetic::div_mod::lemma_fundamental_div_mod(tu as int, 86400);
        vstd::arithmetic::div_mod::lemma_fundamental_div_mod_converse(
            local,
            86400,
            days - ERA_SHIFT_DAYS,
            sod as int,
        );
    }
    let (y, m, d) = civil_of_shifted(days);
    let mut s = date_text(y, m as u64, d as u64);
    push_char(&mut s, ' ');
    push_time(&mut s, sod as u64);
    assert(s@ =~= ts_text(ts as int));
    s
}


/// Every day number has a real calendar date: a month from 1 to 12 and a day from 1 to 31.
pub proof fn lemma_civil_date_valid(days: int)
    ensures
        1 <= civil_from_days(days).1 <= 12,
        1 <= civil_from_days(days).2 <= 31,
{
    let z = days + 719468;
    let doe = z % 146097;
    lemma_era_steps(doe);
    let yoe = (doe - doe / 1460 + doe / 36524 - doe / 146096) / 365;
    let doy = doe - (365 * yoe + yoe / 4 - yoe / 100);
    lemma_month_steps(doy);
}

/// The day number, counted from 1970-01-01, of the proleptic Gregorian date `(y, m, d)`: whole
/// 400-year eras of 146097 days, then the years of the era (365 days, one more every fourth
/// year but not every hundredth), then the days since March 1 (the leap day comes last).
pub open spec fn days_from_civil(y: int, m: int, d: int) -> int {
    let yy = if m <= 2 { y - 1 } else { y };
    let era = yy / 400;
    let yoe = yy - era * 400;
    let mp = if m > 2 { m - 3 } else { m + 9 };
    let doy = (153 * mp + 2) / 5 + d - 1;
    let doe = yoe * 365 + yoe / 4 - yoe / 100 + doy;
    era * 146097 + doe - 719468
}

/// The date shown for a day counts back to that day: the calendar date of day `days` is the
/// date whose day number is `days`.
pub proof fn lemma_civil_date_counts_back(days: int)
    ensures
        ({
            let (y, m, d) = civil_from_days(days);
            days_from_civil(y, m, d) == days
        }),
{
    let z = days + 719468;
    let era = z / 146097;
    let doe = z % 146097;
    lemma_era_steps(doe);
    let yoe = (doe - doe / 1460 + doe / 36524 - doe / 146096) / 365;
    let doy = doe - (365 * yoe + yoe / 4 - yoe / 100);
    lemma_month_steps(doy);
    let mp = (5 * doy + 2) / 153;
    let (y, m, d) = civil_from_days(days);
    let yy = if m <= 2 { y - 1 } else { y };
    assert(yy == yoe + era * 400);
    assert(yy / 400 == era) by {
        vstd::arithmetic::div_mod::lemma_fundamental_div_mod_converse(yy, 400, era, yoe);
    }
    assert(z == era * 146097 + doe) by {
        vstd::arithmetic::div_mod::lemma_fundamental_div_mod(z, 146097);
    }
}

/// The clock time shown is the Unix second moved by exactly eight hours, all year round: the
/// text ends in `HH:mm:ss` of the second of the day `(ts + 28800) mod 86400`.
pub proof fn lemma_shown_time_of_day(ts: int)
    ensures
        ({
            let t = ts_text(ts);
            let sod = (ts + 28800) % 86400;
            let (h, m, s) = (sod / 3600, sod % 3600 / 60, sod % 60);
            &&& t.len() >= 8
            &&& t.subrange(t.len() - 8, t.len() as int) == seq![
                digit_char(h / 10),
                digit_char(h % 10),
                ':',
                digit_char(m / 10),
                digit_char(m % 10),
                ':',
                digit_char(s / 10),
                digit_char(s % 10),
            ]
        }),
{
    let local = ts + DISPLAY_TZ_OFFSET_SECS;
    let date = civil_from_days(local / 86400);
    let sod = local % 86400;
    let head = year_text(date.0) + seq!['-'] + pad2(date.1) + seq!['-'] + pad2(date.2) + seq![' '];
    let tail = pad2(sod / 3600) + seq![':'] + pad2(sod % 3600 / 60) + seq![':'] + pad2(sod % 60);
    let t = ts_text(ts);
    assert(t =~= head + tail);
    assert(tail.len() == 8);
    assert(t.subrange(t.len() - 8, t.len() as int) =~= tail);
}

/// Two seconds of the same day in the display time zone show the same date: the text before the
/// clock time depends only on the local day.
pub proof fn lemma_same_local_day_same_date(ts1: int, ts2: int)
    requires
        (ts1 + 28800) / 86400 == (ts2 + 28800) / 86400,
    ensures
        ts_text(ts1).len() == ts_text(ts2).len(),
        ts_text(ts1).subrange(0, ts_text(ts1).len() - 9) == ts_text(ts2).subrange(0, ts_text(ts2).len() - 9),
{
    let d = civil_from_days((ts1 + DISPLAY_TZ_OFFSET_SECS) / 86400);
    let head = year_text(d.0) + seq!['-'] + pad2(d.1) + seq!['-'] + pad2(d.2);
    let s1 = (ts1 + DISPLAY_TZ_OFFSET_SECS) % 86400;
    let s2 = (ts2 + DISPLAY_TZ_OFFSET_SECS) % 86400;
    let tail1 = seq![' '] + pad2(s1 / 3600) + seq![':'] + pad2(s1 % 3600 / 60) + seq![':'] + pad2(s1 % 60);
    let tail2 = seq![' '] + pad2(s2 / 3600) + seq![':'] + pad2(s2 % 3600 / 60) + seq![':'] + pad2(s2 % 60);
    assert(ts_text(ts1) =~= head + tail1);
    assert(ts_text(ts2) =~= head + tail2);
    assert(ts_text(ts1).subrange(0, ts_text(ts1).len() - 9) =~= head);
    assert(ts_text(ts2).subrange(0, ts_text(ts2).len() - 9) =~= head);
}

} // verus!
