//! Wall-clock reading and timestamp rendering, behind trusted calls into
//! the time library.

use vstd::prelude::*;

verus! {

/// Timestamps are clamped to the last millisecond of year 9999, so that
/// rendering is total.
pub const STAMP_CEILING: u64 = 253402300799999;

/// Names the RFC 3339 UTC rendering, with millisecond precision, of an epoch
/// millisecond value.
pub uninterp spec fn iso8601_of(ms: int) -> Seq<char>;

/// Relies on chrono's `Utc::now` and `timestamp_millis`. The value depends
/// on the host clock, so nothing is promised of it.
#[verifier::external_body]
fn now_millis_raw() -> u64 {
    chrono::Utc::now().timestamp_millis() as u64
}

/// Relies on chrono's `DateTime::from_timestamp_millis` and
/// `to_rfc3339_opts`: within chrono's documented range the conversion
/// succeeds, and the rendering is a function of the millisecond value alone.
#[verifier::external_body]
fn format_utc_millis(ms: u64) -> (r: String)
    requires
        ms <= STAMP_CEILING,
    ensures
        r@ == iso8601_of(ms as int),
{
    let t = chrono::DateTime::<chrono::Utc>::from_timestamp_millis(ms as i64).unwrap();
    t.to_rfc3339_opts(chrono::SecondsFormat::Millis, true)
}

/// The timestamp value actually rendered: clamped to the supported range.
pub open spec fn clamp_stamp(ms: u64) -> u64 {
    if ms > STAMP_CEILING {
        STAMP_CEILING
    } else {
        ms
    }
}

/// The clock now, clamped into the renderable range.
pub fn now_clamped() -> (r: u64)
    ensures
        r <= STAMP_CEILING,
{
    let t = now_millis_raw();
    if t > STAMP_CEILING {
        STAMP_CEILING
    } else {
        t
    }
}

/// A completion instant: the clock now, but never before `started`.
pub fn completion_after(started: u64) -> (r: u64)
    requires
        started <= STAMP_CEILING,
    ensures
        started <= r <= STAMP_CEILING,
{
    let now = now_clamped();
    if now < started {
        started
    } else {
        now
    }
}

/// Renders a timestamp, clamping it into the renderable range first.
pub fn format_stamp(ms: u64) -> (r: String)
    ensures
        r@ == iso8601_of(clamp_stamp(ms) as int),
{
    let c = if ms > STAMP_CEILING {
        STAMP_CEILING
    } else {
        ms
    };
    format_utc_millis(c)
}

} // verus!
