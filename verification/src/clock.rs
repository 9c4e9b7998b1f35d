//! Time arithmetic for consent deadlines announced as RFC 3339 timestamps.

use vstd::prelude::*;

verus! {

/// The instant that `chrono::DateTime::parse_from_rfc3339` reads from a string, as UTC Unix
/// seconds and the nanoseconds past that second (at least 10^9 inside a leap second), or
/// `None` when the string is not RFC 3339.
pub uninterp spec fn rfc3339_timestamp(s: Seq<char>) -> Option<(i64, u32)>;

/// The Unix seconds of every `chrono` date-time lie strictly between these bounds: chrono's
/// years run from -262143 to 262143, about 8.3 * 10^12 seconds from 1970.
pub open spec fn in_chrono_range(secs: i64) -> bool {
    -0x1000_0000_0000 < secs < 0x1000_0000_0000
}

/// Parses with `chrono::DateTime::parse_from_rfc3339` and reads `timestamp()` and
/// `timestamp_subsec_nanos()`. Claimed: the outcome is a function of the string
/// (`rfc3339_timestamp`), its seconds lie in chrono's documented year range, and its
/// nanoseconds are below 2 * 10^9 (a leap second at most doubles the fraction).
#[verifier::external_body]
fn parse_rfc3339_timestamp(s: &str) -> (res: Option<(i64, u32)>)
    ensures
        res == rfc3339_timestamp(s@),
        res matches Some(t) ==> in_chrono_range(t.0) && t.1 < 2_000_000_000,
{
    match chrono::DateTime::parse_from_rfc3339(s) {
        Ok(expires) => Some((expires.timestamp(), expires.timestamp_subsec_nanos())),
        Err(_) => None,
    }
}

/// The second of the UTC day of a Unix timestamp.
pub open spec fn second_of_day(secs: i64) -> int {
    secs as int % 86400
}

/// The signed nanoseconds from `now` to `expires`, counted as chrono's `signed_duration_since`
/// counts them: a leap second is only counted when the other instant lies on the far side of it
/// within the day.
pub open spec fn nanos_between(expires: (i64, u32), now: (i64, u32)) -> int {
    let leap_adjust: int = if second_of_day(expires.0) > second_of_day(now.0) && now.1
        >= 1_000_000_000 {
        1
    } else if second_of_day(expires.0) < second_of_day(now.0) && expires.1 >= 1_000_000_000 {
        -1
    } else {
        0
    };
    (expires.0 - now.0 + leap_adjust) * 1_000_000_000 + (expires.1 - now.1)
}

/// The time left from `now` until `expires` as whole seconds and nanoseconds, or `None` when
/// `expires` is already past (a negative span has no `std::time::Duration`).
pub open spec fn remaining_duration(expires: (i64, u32), now: (i64, u32)) -> Option<(u64, u32)> {
    let n: int = nanos_between(expires, now);
    if n < 0 {
        None
    } else {
        Some(((n / 1_000_000_000) as u64, (n % 1_000_000_000) as u32))
    }
}

fn second_of_day_exec(secs: i64) -> (res: i128)
    ensures
        res == second_of_day(secs),
        0 <= res < 86400,
{
    let shifted: i128 = secs as i128 + 86400 * 0x8000_0000_0000;
    assert(shifted >= 0);
    proof {
        vstd::arithmetic::div_mod::lemma_mod_multiples_vanish(
            0x8000_0000_0000,
            secs as int,
            86400,
        );
    }
    let r: u128 = (shifted as u128) % 86400;
    r as i128
}

/// The time left from `now` until `expires` (see `remaining_duration`).
pub fn time_until(expires: (i64, u32), now: (i64, u32)) -> (res: Option<(u64, u32)>)
    requires
        in_chrono_range(expires.0),
        in_chrono_range(now.0),
        expires.1 < 2_000_000_000,
        now.1 < 2_000_000_000,
    ensures
        res == remaining_duration(expires, now),
{
    let e_day: i128 = second_of_day_exec(expires.0);
    let n_day: i128 = second_of_day_exec(now.0);
    let leap_adjust: i128 = if e_day > n_day && now.1 >= 1_000_000_000 {
        1
    } else if e_day < n_day && expires.1 >= 1_000_000_000 {
        -1
    } else {
        0
    };
    let secs: i128 = expires.0 as i128 - now.0 as i128 + leap_adjust;
    assert(-0x2000_0000_0001 <= secs <= 0x2000_0000_0001);
    assert(-0x2000_0000_0001 * 1_000_000_000 <= secs * 1_000_000_000 <= 0x2000_0000_0001
        * 1_000_000_000) by (nonlinear_arith)
        requires
            -0x2000_0000_0001 <= secs <= 0x2000_0000_0001,
    ;
    let n: i128 = secs * 1_000_000_000 + (expires.1 as i128 - now.1 as i128);
    if n < 0 {
        None
    } else {
        let whole: i128 = n / 1_000_000_000;
        let frac: i128 = n % 1_000_000_000;
        assert(whole <= n);
        Some((whole as u64, frac as u32))
    }
}

/// The instant that an RFC 3339 text names, as UTC Unix seconds and nanoseconds.
pub fn parse_rfc3339_instant(value: &str) -> (res: Option<(i64, u32)>)
    ensures
        res == rfc3339_timestamp(value@),
        res matches Some(t) ==> in_chrono_range(t.0) && t.1 < 2_000_000_000,
{
    parse_rfc3339_timestamp(value)
}

/// The time left at `now` until an RFC 3339 deadline; `None` when the text does not parse or
/// the deadline has passed.
pub fn parse_rfc3339_deadline(value: &str, now: (i64, u32)) -> (res: Option<(u64, u32)>)
    requires
        in_chrono_range(now.0),
        now.1 < 2_000_000_000,
    ensures
        res == match rfc3339_timestamp(value@) {
            None => None,
            Some(expires) => remaining_duration(expires, now),
        },
{
    match parse_rfc3339_instant(value) {
        None => None,
        Some(expires) => time_until(expires, now),
    }
}

/// How long to wait for consent, as seconds and nanoseconds: the time left until the announced
/// expiry, or the default wait when none was announced or it cannot be used.
pub open spec fn consent_wait_for(remaining: Option<(u64, u32)>) -> (u64, u32) {
    match remaining {
        Some(d) => d,
        None => (120u64, 0u32),
    }
}

/// How long to wait for consent: the time left until the announced expiry, or two minutes when
/// none was announced or it cannot be used.
pub fn consent_wait(remaining: Option<(u64, u32)>) -> (res: (u64, u32))
    ensures
        res == match remaining {
            Some(d) => d,
            None => (120u64, 0u32),
        },
        res == consent_wait_for(remaining),
{
    match remaining {
        Some(d) => d,
        None => (120, 0),
    }
}

/// The time left is `None` exactly when the deadline lies before now, and it is zero at the
/// deadline itself.
pub proof fn lemma_remaining_none_iff_past(expires: (i64, u32), now: (i64, u32))
    ensures
        remaining_duration(expires, now) is None <==> nanos_between(expires, now) < 0,
        expires.1 < 1_000_000_000 ==> remaining_duration(expires, expires) == Some((0u64, 0u32)),
{
}

/// The consent wait is exactly the time left when it is known, and two minutes otherwise.
pub proof fn lemma_consent_wait_defaults_to_two_minutes(remaining: Option<(u64, u32)>)
    ensures
        remaining matches Some(d) ==> consent_wait_for(remaining) == d,
        remaining is None ==> consent_wait_for(remaining).0 == 2 * 60 && consent_wait_for(remaining).1 == 0,
{
}

} // verus!
