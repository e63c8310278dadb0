//! Wall-clock readings and the text forms in which the order tables store
//! them.
use vstd::prelude::*;
use std::time::{Duration, SystemTime, SystemTimeError};
use crate::calendar::{format_unix_timestamp, is_timestamp_of};
use crate::lifecycle::opt_string_view;
use crate::text::{nat_text, nat_text_exec, string_of};

verus! {

#[verifier::external_type_specification]
#[verifier::external_body]
pub struct ExSystemTime(SystemTime);

#[verifier::external_type_specification]
#[verifier::external_body]
pub struct ExSystemTimeError(SystemTimeError);

/// `SystemTime::now`: the current reading of the system clock. Nothing is
/// claimed of it.
#[verifier::external_body]
fn system_time_now() -> SystemTime {
    SystemTime::now()
}

/// `SystemTime::duration_since` against `UNIX_EPOCH`: the time elapsed
/// since the epoch, or an error when the clock reads earlier. Nothing is
/// claimed of either outcome.
#[verifier::external_body]
fn elapsed_since_unix_epoch(time: &SystemTime) -> Result<Duration, SystemTimeError> {
    time.duration_since(std::time::UNIX_EPOCH)
}

/// `Duration::as_secs`: the whole seconds of a duration. Nothing is claimed
/// of the value.
#[verifier::external_body]
fn duration_whole_seconds(duration: &Duration) -> u64 {
    duration.as_secs()
}

/// `Duration::subsec_nanos`: the fractional part of a duration in
/// nanoseconds, which the documentation bounds below one billion.
#[verifier::external_body]
fn duration_subsec_nanos(duration: &Duration) -> (r: u32)
    ensures
        r < 1_000_000_000,
{
    duration.subsec_nanos()
}

/// Whole seconds since the Unix epoch by the system clock, or 0 when the
/// clock reads before the epoch.
pub fn clock_seconds() -> u64 {
    let now = system_time_now();
    match elapsed_since_unix_epoch(&now) {
        Ok(duration) => duration_whole_seconds(&duration),
        Err(_) => 0,
    }
}

/// The clock in seconds as a signed integer (the columns compare it with
/// signed values).
pub fn unix_now_seconds() -> i64 {
    let seconds = clock_seconds();
    #[verifier::truncate]
    (seconds as i64)
}

/// Unix seconds as the order tables store them: decimal digits only.
pub fn unix_seconds_text(seconds: u64) -> (r: String)
    ensures
        r@ == nat_text(seconds as nat),
{
    string_of(&nat_text_exec(seconds))
}

/// The current time as unix-seconds text, the form in which order commands
/// stamp their rows.
pub fn current_command_timestamp() -> (r: String)
    ensures
        exists|seconds: nat| r@ == nat_text(seconds),
{
    let seconds = clock_seconds();
    unix_seconds_text(seconds)
}

/// The clock in seconds (an inventory row's timestamp).
pub fn now_seconds() -> i64 {
    unix_now_seconds()
}

/// The clock as unix-seconds text (an inventory row's timestamp).
pub fn now_string() -> (r: String)
    ensures
        exists|seconds: int| r@ == crate::text::int_text(seconds),
{
    string_of(&crate::text::i64_text(now_seconds()))
}

/// Seconds a stock reservation is held for payment.
pub const RESERVATION_HOLD_SECONDS: u64 = 1800;

/// The unix-seconds text `seconds` plus the reservation hold (saturating
/// at the end of the clock's range).
pub fn reservation_expiry_after(seconds: u64) -> (r: String)
    ensures
        r@ == nat_text(
            (if seconds + RESERVATION_HOLD_SECONDS <= u64::MAX {
                seconds + RESERVATION_HOLD_SECONDS
            } else {
                u64::MAX as int
            }) as nat,
        ),
{
    unix_seconds_text(seconds.saturating_add(RESERVATION_HOLD_SECONDS))
}

/// When a stock reservation made now expires.
pub fn expires_at() -> (r: String)
    ensures
        exists|seconds: nat| r@ == nat_text(seconds),
{
    let now = clock_seconds();
    reservation_expiry_after(now)
}

/// The current time as the `YYYY-MM-DD hh:mm:ss` (UTC) timestamp that the
/// recharge queries compare stored expiries with.
pub fn current_query_timestamp() -> (r: String)
    ensures
        exists|seconds: int| i64::MIN <= seconds <= i64::MAX && is_timestamp_of(seconds, r@),
{
    let seconds = unix_now_seconds();
    format_unix_timestamp(seconds)
}

/// The instant (unix seconds and nanoseconds) of an RFC 3339 timestamp,
/// as `chrono` parses it; `None` when `text` is not one.
pub uninterp spec fn rfc3339_instant_of(text: Seq<char>) -> Option<(i64, u32)>;

/// `chrono::DateTime::parse_from_rfc3339`, read back as its UTC instant
/// (`timestamp`, `timestamp_subsec_nanos`). The result is claimed to
/// depend on `text` only.
#[verifier::external_body]
fn rfc3339_instant(text: &str) -> (r: Option<(i64, u32)>)
    ensures
        r == rfc3339_instant_of(text@),
{
    match chrono::DateTime::parse_from_rfc3339(text) {
        Ok(value) => Some((value.timestamp(), value.timestamp_subsec_nanos())),
        Err(_) => None,
    }
}

/// The RFC 3339 text (UTC, milliseconds, `Z`) of the instant `seconds` /
/// `nanos` moved by `shift` seconds, as `chrono` computes it; `None` when
/// the instant, the shift or the result is outside `chrono`'s range.
pub uninterp spec fn rfc3339_shifted_of(seconds: i64, nanos: u32, shift: i64) -> Option<Seq<char>>;

/// `chrono::DateTime::from_timestamp`, `TimeDelta::try_seconds`,
/// `DateTime::checked_add_signed` and `to_rfc3339_opts(SecondsFormat::Millis,
/// true)`: the shifted instant as text. `None` exactly where one of them
/// refuses its input (where `DateTime + Duration::seconds` would panic).
/// The result is claimed to depend on the arguments only.
#[verifier::external_body]
fn rfc3339_shifted(seconds: i64, nanos: u32, shift: i64) -> (r: Option<String>)
    ensures
        match r {
            Some(t) => rfc3339_shifted_of(seconds, nanos, shift) == Some(t@),
            None => rfc3339_shifted_of(seconds, nanos, shift).is_none(),
        },
{
    let base = chrono::DateTime::from_timestamp(seconds, nanos)?;
    let delta = chrono::TimeDelta::try_seconds(shift)?;
    match base.checked_add_signed(delta) {
        Some(value) => Some(value.to_rfc3339_opts(chrono::SecondsFormat::Millis, true)),
        None => None,
    }
}

/// The system clock as a unix instant (seconds, nanoseconds); the epoch
/// when the clock reads before it.
pub fn clock_instant() -> (r: (i64, u32))
    ensures
        r.1 < 1_000_000_000,
{
    let now = system_time_now();
    match elapsed_since_unix_epoch(&now) {
        Ok(duration) => {
            let seconds = duration_whole_seconds(&duration);
            let nanos = duration_subsec_nanos(&duration);
            #[verifier::truncate]
            let s = seconds as i64;
            (s, nanos)
        },
        Err(_) => (0, 0),
    }
}

/// The expiry of a new account value order: its creation time `now`
/// (RFC 3339; the clock when `now` does not parse) plus the payment window,
/// as RFC 3339 in UTC with milliseconds. `None` where the shifted time
/// leaves the calendar's range.
pub fn rfc3339_after_payment_window(now: &str, window_seconds: i64) -> (r: Option<String>)
    ensures
        match rfc3339_instant_of(now@) {
            Some(instant) => opt_string_view(r) == rfc3339_shifted_of(instant.0, instant.1, window_seconds),
            None => exists|seconds: i64, nanos: u32|
                opt_string_view(r) == #[trigger] rfc3339_shifted_of(seconds, nanos, window_seconds),
        },
{
    let (seconds, nanos) = match rfc3339_instant(now) {
        Some(instant) => instant,
        None => clock_instant(),
    };
    rfc3339_shifted(seconds, nanos, window_seconds)
}

} // verus!
