//! The `Retry-After` header: a number of seconds, or a date.

use vstd::prelude::*;

use crate::delay::{Delay, NANOS_PER_SEC};
use crate::instant::{INSTANT_BOUND, YEAR_10000};
use crate::outside;
use crate::outside::rfc2822_instant;
use crate::text::{parse_unsigned, parsed_unsigned};

verus! {

/// Seconds beyond which no date makes a sender wait.
pub const MAX_DATE_WAIT_SECS: u64 = 300;

/// Nanoseconds to wait until a deadline: nothing where it is missing or not in the future, and
/// never more than five minutes.
pub open spec fn wait_until(deadline: Option<int>, now: int) -> Option<nat> {
    match deadline {
        Some(d) => if d <= now {
            None
        } else if d - now > MAX_DATE_WAIT_SECS * NANOS_PER_SEC {
            Some((MAX_DATE_WAIT_SECS * NANOS_PER_SEC) as nat)
        } else {
            Some((d - now) as nat)
        },
        None => None,
    }
}

/// Nanoseconds that a header asks a sender to wait at the instant `now`. A number of seconds is
/// taken as it stands.
pub open spec fn requested_wait(value: Seq<char>, now: int) -> Option<nat> {
    match parsed_unsigned(value) {
        Some(secs) => Some((secs * NANOS_PER_SEC) as nat),
        None => wait_until(rfc2822_instant(value), now),
    }
}

/// The length of an optional delay.
pub open spec fn length_of(delay: Option<Delay>) -> Option<nat> {
    match delay {
        Some(d) => Some(d.total()),
        None => None,
    }
}

/// Whether an optional delay, where there is one, is well formed.
pub open spec fn delay_wf(delay: Option<Delay>) -> bool {
    delay matches Some(d) ==> d.wf()
}

/// How long to wait for a deadline.
pub fn delay_until(deadline: Option<i128>, now: i128) -> (r: Option<Delay>)
    ensures
        delay_wf(r),
        length_of(r) == wait_until(
            match deadline {
                Some(d) => Some(d as int),
                None => None,
            },
            now as int,
        ),
{
    match deadline {
        None => None,
        Some(d) => {
            if d <= now {
                return None;
            }
            let cap: i128 = 300_000_000_000;
            let wait: i128 = match d.checked_sub(now) {
                None => cap,
                Some(w) => if w > cap {
                    cap
                } else {
                    w
                },
            };
            let secs: u64 = (wait / 1_000_000_000) as u64;
            let nanos: u32 = (wait % 1_000_000_000) as u32;
            Some(Delay { secs, nanos })
        },
    }
}

/// How long a header asks a sender to wait from now on. The clock is read for a date alone.
pub fn parse_retry_after(value: &str) -> (r: Option<Delay>)
    ensures
        delay_wf(r),
        exists|now: i128|
            -INSTANT_BOUND <= now < YEAR_10000 && length_of(r) == #[trigger] requested_wait(
                value@,
                now as int,
            ),
{
    match parse_unsigned(value) {
        Some(secs) => {
            let ghost any: i128 = 0;
            proof {
                assert(requested_wait(value@, any as int) == Some((secs * NANOS_PER_SEC) as nat));
            }
            Some(Delay::from_secs(secs))
        },
        None => {
            let deadline: Option<i128> = outside::rfc2822(value);
            let now: i128 = outside::now_utc();
            let r = delay_until(deadline, now);
            proof {
                assert(length_of(r) == requested_wait(value@, now as int));
            }
            r
        },
    }
}

/// A header that is neither a number nor a date asks for nothing, at any time.
pub proof fn unreadable_header_asks_for_nothing(value: Seq<char>, now: int)
    requires
        parsed_unsigned(value) is None,
        rfc2822_instant(value) is None,
    ensures
        requested_wait(value, now) is None,
{
}

/// A date never makes a sender wait longer than five minutes, nor beyond the date.
pub proof fn dates_are_capped(value: Seq<char>, now: int)
    requires
        parsed_unsigned(value) is None,
    ensures
        requested_wait(value, now) matches Some(w) ==> {
            &&& 0 < w <= MAX_DATE_WAIT_SECS * NANOS_PER_SEC
            &&& rfc2822_instant(value) matches Some(d) && now + w <= d
        },
{
}

/// A number is taken as seconds, without a limit. A date in the future makes the sender wait until
/// then or for five minutes, whichever is shorter, and any other header not at all.
pub proof fn waits_are_those_asked_for(value: Seq<char>, now: int)
    ensures
        parsed_unsigned(value) matches Some(secs) ==> requested_wait(value, now) == Some(
            (secs * 1_000_000_000) as nat,
        ),
        parsed_unsigned(value) is None ==> match rfc2822_instant(value) {
            Some(d) if d > now => {
                &&& requested_wait(value, now) matches Some(w)
                &&& w <= d - now && w <= 300_000_000_000
                &&& w == d - now || w == 300_000_000_000
            },
            _ => requested_wait(value, now) is None,
        },
{
}

} // verus!
