//! Basic timing utilities, in whole seconds.

use crate::dynamic::{Dynamic, Value, INT};
use crate::error::{make_arithmetic_err, ErrorValue, EvalAltResult, Position};
use crate::text::{decimal, decimal_text, join2, join3};
use instant::{Duration, Instant};
use vstd::prelude::*;
use vstd::string::*;

verus! {

/// The largest integer of scripts.
pub const MAX_INT: INT = 9223372036854775807;

/// The nanoseconds in a second.
pub const NANOS_PER_SEC: u64 = 1000000000;

/// Where an instant lies on its clock, in nanoseconds from the clock's
/// origin. The clock does not show its origin, so only the distance between
/// two instants can be observed.
pub uninterp spec fn instant_nanos(t: Instant) -> int;

/// The present instant, as `instant::Instant::now` reads it from the clock.
/// Nothing is claimed of it.
#[verifier::external_body]
fn now() -> Instant {
    Instant::now()
}

/// Whether `a` is later than `b`, by the order that `Instant` has: that of
/// the instants' places on the clock.
#[verifier::external_body]
fn is_later(a: Instant, b: Instant) -> (res: bool)
    ensures
        res == (instant_nanos(a) > instant_nanos(b)),
{
    a > b
}

/// Whether `a` and `b` are the same instant, by the equality that `Instant`
/// has: that of the instants' places on the clock.
#[verifier::external_body]
fn is_same(a: Instant, b: Instant) -> (res: bool)
    ensures
        res == (instant_nanos(a) == instant_nanos(b)),
{
    a == b
}

/// The time from `earlier` to `later`, as `Instant::saturating_duration_since`
/// gives it: the whole seconds and the nanoseconds beyond them, which are
/// fewer than a second. It is the time that passed from the one to the
/// other, and zero where `earlier` is in truth the later one.
#[verifier::external_body]
fn duration_between(later: Instant, earlier: Instant) -> (res: (u64, u32))
    ensures
        res.1 < NANOS_PER_SEC,
        res.0 * NANOS_PER_SEC + res.1 == if instant_nanos(later) >= instant_nanos(earlier) {
            instant_nanos(later) - instant_nanos(earlier)
        } else {
            0
        },
{
    let between = later.saturating_duration_since(earlier);
    (between.as_secs(), between.subsec_nanos())
}

/// The instant `seconds` seconds after `t`, by `Instant::checked_add` with
/// `Duration::from_secs`; nothing where the clock cannot hold that instant.
/// Which instants it can hold is the machine's business.
#[verifier::external_body]
fn checked_add_seconds(t: Instant, seconds: u64) -> (res: Option<Instant>)
    ensures
        match res {
            Some(u) => instant_nanos(u) == instant_nanos(t) + seconds * NANOS_PER_SEC,
            None => true,
        },
{
    t.checked_add(Duration::from_secs(seconds))
}

/// The instant `seconds` seconds before `t`, by `Instant::checked_sub` with
/// `Duration::from_secs`; nothing where the clock cannot hold that instant.
/// Which instants it can hold is the machine's business.
#[verifier::external_body]
fn checked_sub_seconds(t: Instant, seconds: u64) -> (res: Option<Instant>)
    ensures
        match res {
            Some(u) => instant_nanos(u) == instant_nanos(t) - seconds * NANOS_PER_SEC,
            None => true,
        },
{
    t.checked_sub(Duration::from_secs(seconds))
}

/// What the outcome of a timing function stands for: a value, or what an
/// error says.
pub open spec fn outcome_value(res: Result<Dynamic, Box<EvalAltResult>>) -> Result<
    Value,
    ErrorValue,
> {
    match res {
        Ok(v) => Ok(v@),
        Err(e) => Err(e@),
    }
}

/// The arithmetic error that says `text`.
pub open spec fn arithmetic(text: Seq<char>) -> ErrorValue {
    ErrorValue::Arithmetic(text, Position::none())
}

/// What `elapsed` makes of the seconds that the clock counted since a time
/// stamp and of whether the time stamp is later than the present: the
/// seconds as an integer, unless they are too many for one or the time
/// stamp lies in the future.
pub open spec fn elapsed_outcome(seconds: u64, in_future: bool) -> Result<Value, ErrorValue> {
    if seconds > MAX_INT {
        Err(arithmetic("Integer overflow for timestamp.elapsed: "@ + decimal(seconds as nat)))
    } else if in_future {
        Err(arithmetic("Time-stamp is later than now"@))
    } else {
        Ok(Value::Int(seconds as int))
    }
}

/// The whole seconds from the place `from` on the clock to the place `to`,
/// with a minus sign where `to` is the earlier one; an error where they are
/// too many for an integer.
pub open spec fn diff_outcome(to: int, from: int) -> Result<Value, ErrorValue> {
    if from > to {
        let seconds = (from - to) / (NANOS_PER_SEC as int);
        if seconds > MAX_INT {
            Err(
                arithmetic(
                    "Integer overflow for timestamp duration: -"@ + decimal(seconds as nat),
                ),
            )
        } else {
            Ok(Value::Int(-seconds))
        }
    } else {
        let seconds = (to - from) / (NANOS_PER_SEC as int);
        if seconds > MAX_INT {
            Err(arithmetic("Integer overflow for timestamp duration: "@ + decimal(seconds as nat)))
        } else {
            Ok(Value::Int(seconds))
        }
    }
}

/// What the error says that reports a time stamp which could not be moved
/// by `seconds` seconds.
pub open spec fn overflow_error(seconds: nat) -> ErrorValue {
    arithmetic("Timestamp overflow when adding "@ + decimal(seconds) + " second(s)"@)
}

/// The size of an integer without its sign.
pub open spec fn magnitude(seconds: INT) -> nat {
    if seconds < 0 {
        (-seconds) as nat
    } else {
        seconds as nat
    }
}

/// The present instant.
pub fn timestamp() -> Instant {
    now()
}

/// What `elapsed` returns for the seconds that the clock counted since a
/// time stamp, where `in_future` tells whether the time stamp is later than
/// the present.
pub fn elapsed_result(seconds: u64, in_future: bool) -> (res: Result<Dynamic, Box<EvalAltResult>>)
    ensures
        outcome_value(res) == elapsed_outcome(seconds, in_future),
{
    if seconds > MAX_INT as u64 {
        let number = decimal_text(seconds);
        Err(
            make_arithmetic_err(
                join2("Integer overflow for timestamp.elapsed: ", number.as_str()),
            ),
        )
    } else if in_future {
        Err(make_arithmetic_err(String::from_str("Time-stamp is later than now")))
    } else {
        Ok(Dynamic::from_int(seconds as INT))
    }
}

/// The whole seconds from the place `since` on the clock to the place
/// `present`: none where `since` is the later one.
pub open spec fn seconds_passed(present: int, since: int) -> int {
    if present >= since {
        (present - since) / (NANOS_PER_SEC as int)
    } else {
        0
    }
}

/// The whole seconds that have passed since `timestamp`. The clock is read
/// once, and the result is what `elapsed_result` makes of the distance from
/// the time stamp to that reading: an error for a time stamp that is later
/// than the reading.
pub fn elapsed(timestamp: Instant) -> (res: Result<Dynamic, Box<EvalAltResult>>)
    ensures
        exists|present: Instant|
            outcome_value(res) == elapsed_outcome(
                seconds_passed(
                    #[trigger] instant_nanos(present),
                    instant_nanos(timestamp),
                ) as u64,
                instant_nanos(timestamp) > instant_nanos(present),
            ),
{
    let present = now();
    let (seconds, _) = duration_between(present, timestamp);
    let in_future = is_later(timestamp, present);
    assert(seconds == seconds_passed(instant_nanos(present), instant_nanos(timestamp)));
    elapsed_result(seconds, in_future)
}

/// The whole seconds from `timestamp2` to `timestamp`, with a minus sign
/// where `timestamp` is the earlier one.
pub fn time_diff(timestamp: Instant, timestamp2: Instant) -> (res: Result<
    Dynamic,
    Box<EvalAltResult>,
>)
    ensures
        outcome_value(res) == diff_outcome(instant_nanos(timestamp), instant_nanos(timestamp2)),
{
    if is_later(timestamp2, timestamp) {
        let (seconds, _) = duration_between(timestamp2, timestamp);
        if seconds > MAX_INT as u64 {
            let number = decimal_text(seconds);
            Err(
                make_arithmetic_err(
                    join2("Integer overflow for timestamp duration: -", number.as_str()),
                ),
            )
        } else {
            Ok(Dynamic::from_int(-(seconds as INT)))
        }
    } else {
        let (seconds, _) = duration_between(timestamp, timestamp2);
        if seconds > MAX_INT as u64 {
            let number = decimal_text(seconds);
            Err(
                make_arithmetic_err(
                    join2("Integer overflow for timestamp duration: ", number.as_str()),
                ),
            )
        } else {
            Ok(Dynamic::from_int(seconds as INT))
        }
    }
}

/// What moving a time stamp by `seconds` seconds comes to, where `moved` is
/// what the clock made of it: the instant, or the error that names the
/// seconds where the clock could not hold it.
pub fn moved_or_overflow(moved: Option<Instant>, seconds: u64) -> (res: Result<
    Instant,
    Box<EvalAltResult>,
>)
    ensures
        match res {
            Ok(t) => moved == Some(t),
            Err(e) => moved is None && e@ == overflow_error(seconds as nat),
        },
{
    match moved {
        Some(t) => Ok(t),
        None => {
            let number = decimal_text(seconds);
            Err(
                make_arithmetic_err(
                    join3("Timestamp overflow when adding ", number.as_str(), " second(s)"),
                ),
            )
        },
    }
}

/// The time stamp `seconds` seconds later; earlier for negative `seconds`.
fn add_impl(timestamp: Instant, seconds: INT) -> (res: Result<Instant, Box<EvalAltResult>>)
    requires
        seconds > INT::MIN,
    ensures
        match res {
            Ok(t) => instant_nanos(t) == instant_nanos(timestamp) + seconds * NANOS_PER_SEC,
            Err(e) => e@ == overflow_error(magnitude(seconds)),
        },
{
    if seconds < 0 {
        let back: u64 = (-seconds) as u64;
        moved_or_overflow(checked_sub_seconds(timestamp, back), back)
    } else {
        moved_or_overflow(checked_add_seconds(timestamp, seconds as u64), seconds as u64)
    }
}

/// The time stamp `seconds` seconds earlier; later for negative `seconds`.
fn subtract_impl(timestamp: Instant, seconds: INT) -> (res: Result<Instant, Box<EvalAltResult>>)
    requires
        seconds > INT::MIN,
    ensures
        match res {
            Ok(t) => instant_nanos(t) == instant_nanos(timestamp) - seconds * NANOS_PER_SEC,
            Err(e) => e@ == overflow_error(magnitude(seconds)),
        },
{
    if seconds < 0 {
        let forth: u64 = (-seconds) as u64;
        moved_or_overflow(checked_add_seconds(timestamp, forth), forth)
    } else {
        moved_or_overflow(checked_sub_seconds(timestamp, seconds as u64), seconds as u64)
    }
}

/// The time stamp `seconds` seconds later; earlier for negative `seconds`.
/// The call fails where the clock cannot hold the new instant.
pub fn add(timestamp: Instant, seconds: INT) -> (res: Result<Instant, Box<EvalAltResult>>)
    requires
        seconds > INT::MIN,
    ensures
        match res {
            Ok(t) => instant_nanos(t) == instant_nanos(timestamp) + seconds * NANOS_PER_SEC,
            Err(e) => e@ == overflow_error(magnitude(seconds)),
        },
{
    add_impl(timestamp, seconds)
}

/// Moves the time stamp `seconds` seconds later; earlier for negative
/// `seconds`. Where the call fails the time stamp stays as it is.
pub fn add_assign(timestamp: &mut Instant, seconds: INT) -> (res: Result<(), Box<EvalAltResult>>)
    requires
        seconds > INT::MIN,
    ensures
        match res {
            Ok(_) => instant_nanos(*final(timestamp)) == instant_nanos(*old(timestamp)) + seconds
                * NANOS_PER_SEC,
            Err(e) => *final(timestamp) == *old(timestamp) && e@ == overflow_error(
                magnitude(seconds),
            ),
        },
{
    match add_impl(*timestamp, seconds) {
        Ok(t) => {
            *timestamp = t;
            Ok(())
        },
        Err(e) => Err(e),
    }
}

/// The time stamp `seconds` seconds earlier; later for negative `seconds`.
/// The call fails where the clock cannot hold the new instant.
pub fn subtract(timestamp: Instant, seconds: INT) -> (res: Result<Instant, Box<EvalAltResult>>)
    requires
        seconds > INT::MIN,
    ensures
        match res {
            Ok(t) => instant_nanos(t) == instant_nanos(timestamp) - seconds * NANOS_PER_SEC,
            Err(e) => e@ == overflow_error(magnitude(seconds)),
        },
{
    subtract_impl(timestamp, seconds)
}

/// Moves the time stamp `seconds` seconds earlier; later for negative
/// `seconds`. Where the call fails the time stamp stays as it is.
pub fn subtract_assign(timestamp: &mut Instant, seconds: INT) -> (res: Result<
    (),
    Box<EvalAltResult>,
>)
    requires
        seconds > INT::MIN,
    ensures
        match res {
            Ok(_) => instant_nanos(*final(timestamp)) == instant_nanos(*old(timestamp)) - seconds
                * NANOS_PER_SEC,
            Err(e) => *final(timestamp) == *old(timestamp) && e@ == overflow_error(
                magnitude(seconds),
            ),
        },
{
    match subtract_impl(*timestamp, seconds) {
        Ok(t) => {
            *timestamp = t;
            Ok(())
        },
        Err(e) => Err(e),
    }
}

/// Whether the two time stamps are the same instant.
pub fn eq(timestamp: Instant, timestamp2: Instant) -> (res: bool)
    ensures
        res == (instant_nanos(timestamp) == instant_nanos(timestamp2)),
{
    is_same(timestamp, timestamp2)
}

/// Whether the two time stamps are different instants.
pub fn ne(timestamp: Instant, timestamp2: Instant) -> (res: bool)
    ensures
        res == (instant_nanos(timestamp) != instant_nanos(timestamp2)),
{
    !is_same(timestamp, timestamp2)
}

/// Whether `timestamp` is earlier than `timestamp2`.
pub fn lt(timestamp: Instant, timestamp2: Instant) -> (res: bool)
    ensures
        res == (instant_nanos(timestamp) < instant_nanos(timestamp2)),
{
    is_later(timestamp2, timestamp)
}

/// Whether `timestamp` is no later than `timestamp2`.
pub fn lte(timestamp: Instant, timestamp2: Instant) -> (res: bool)
    ensures
        res == (instant_nanos(timestamp) <= instant_nanos(timestamp2)),
{
    !is_later(timestamp, timestamp2)
}

/// Whether `timestamp` is later than `timestamp2`.
pub fn gt(timestamp: Instant, timestamp2: Instant) -> (res: bool)
    ensures
        res == (instant_nanos(timestamp) > instant_nanos(timestamp2)),
{
    is_later(timestamp, timestamp2)
}

/// Whether `timestamp` is no earlier than `timestamp2`.
pub fn gte(timestamp: Instant, timestamp2: Instant) -> (res: bool)
    ensures
        res == (instant_nanos(timestamp) >= instant_nanos(timestamp2)),
{
    !is_later(timestamp2, timestamp)
}

} // verus!
