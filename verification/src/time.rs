//! Durations, through the standard library's `Duration`.

use vstd::prelude::*;

use std::time::Duration;

verus! {

/// The length of a duration in nanoseconds.
pub uninterp spec fn nanos(d: Duration) -> nat;

/// `Duration`'s `Clone`, which copies the value.
pub assume_specification[ <Duration as Clone>::clone ](d: &Duration) -> (r: Duration)
    ensures
        r == *d,
;

/// The largest length a `Duration` can hold, in nanoseconds
/// (`u64::MAX` seconds and 999 999 999 nanoseconds).
pub open spec fn max_duration_nanos() -> nat {
    18_446_744_073_709_551_615nat * 1_000_000_000 + 999_999_999
}

/// `Duration::as_nanos`: the whole length in nanoseconds, which is never
/// more than the largest duration.
#[verifier::external_body]
pub fn duration_nanos(d: &Duration) -> (n: u128)
    ensures
        n == nanos(*d),
        n <= max_duration_nanos(),
{
    d.as_nanos()
}

/// `Duration::new`: the given seconds plus the given nanoseconds; with fewer
/// than a second of nanoseconds nothing carries, so it cannot panic.
#[verifier::external_body]
pub fn duration_new(secs: u64, subsec_nanos: u32) -> (d: Duration)
    requires
        subsec_nanos < 1_000_000_000,
    ensures
        nanos(d) == secs as nat * 1_000_000_000 + subsec_nanos as nat,
{
    Duration::new(secs, subsec_nanos)
}

/// A duration of exactly `n` nanoseconds, for any `n` that a duration can hold.
pub fn duration_of_nanos(n: u128) -> (d: Duration)
    requires
        n <= max_duration_nanos(),
    ensures
        nanos(d) == n,
{
    let secs: u128 = n / 1_000_000_000;
    let sub: u128 = n % 1_000_000_000;
    assert(secs <= u64::MAX) by (nonlinear_arith)
        requires
            n <= 18_446_744_073_709_551_615nat * 1_000_000_000 + 999_999_999,
            secs == n / 1_000_000_000,
    ;
    duration_new(secs as u64, sub as u32)
}

/// `Duration::from_secs`: exactly the given number of seconds.
#[verifier::external_body]
pub fn duration_from_secs(secs: u64) -> (d: Duration)
    ensures
        nanos(d) == secs as nat * 1_000_000_000,
{
    Duration::from_secs(secs)
}

/// `Duration::from_millis`: exactly the given number of milliseconds.
#[verifier::external_body]
pub fn duration_from_millis(millis: u64) -> (d: Duration)
    ensures
        nanos(d) == millis as nat * 1_000_000,
{
    Duration::from_millis(millis)
}

/// `Duration::from_nanos`: exactly the given number of nanoseconds.
#[verifier::external_body]
pub fn duration_from_nanos(n: u64) -> (d: Duration)
    ensures
        nanos(d) == n as nat,
{
    Duration::from_nanos(n)
}

/// The milliseconds of a time since the UNIX epoch as a signed 64-bit
/// number; more than `i64::MAX` milliseconds is refused as an overflow.
pub fn unix_millis(since_epoch: &Duration) -> (r: Result<i64, crate::error::CfProbeError>)
    ensures
        nanos(*since_epoch) / 1_000_000 <= i64::MAX as nat ==> r == Ok::<i64, crate::error::CfProbeError>(
            (nanos(*since_epoch) / 1_000_000) as i64,
        ),
        nanos(*since_epoch) / 1_000_000 > i64::MAX as nat ==> (r matches Err(e)
            && e@ == crate::error::ErrorView::InvalidResponse("timestamp overflow"@)),
{
    let millis: u128 = duration_nanos(since_epoch) / 1_000_000;
    if millis > 9_223_372_036_854_775_807u128 {
        return Err(crate::error::CfProbeError::InvalidResponse(crate::text::copy_str("timestamp overflow")));
    }
    Ok(millis as i64)
}

/// The text that `Duration`'s `Debug` writes for a duration of the given
/// length in nanoseconds (such as `30s` or `1.5ms`).
pub uninterp spec fn debug_duration(n: nat) -> Seq<char>;

/// `format!("{:?}", d)`: the contract names the text and says no more of it.
#[verifier::external_body]
pub fn duration_debug_text(d: &Duration) -> (r: String)
    ensures
        r@ == debug_duration(nanos(*d)),
{
    format!("{:?}", d)
}

} // verus!
