//! Wall-clock time in milliseconds since the Unix epoch.
use vstd::prelude::*;

verus! {

/// Where the system clock stands against the Unix epoch, in whole
/// milliseconds (`Duration::as_millis`): `Ok` with the distance after it
/// (`SystemTime::now().duration_since(UNIX_EPOCH)`), or `Err` with the
/// distance before it, as the `SystemTimeError` gives it (`duration`).
/// Nothing is claimed of the values: they are the time.
#[verifier::external_body]
fn system_clock_offset() -> Result<u128, u128> {
    match std::time::SystemTime::now().duration_since(std::time::UNIX_EPOCH) {
        Ok(after) => Ok(after.as_millis()),
        Err(e) => Err(e.duration().as_millis()),
    }
}

/// A point in time, as whole milliseconds from the Unix epoch; `None` stands
/// for a time before the epoch.
pub struct UtcTime {
    millis: Option<u128>,
}

impl UtcTime {
    /// The whole milliseconds from the Unix epoch to this time; `None` for a
    /// time before the epoch.
    pub closed spec fn spec_millis(&self) -> Option<u128> {
        self.millis
    }

    /// The whole milliseconds from the Unix epoch to this time; `None` for a
    /// time before the epoch.
    pub fn millis(&self) -> (m: Option<u128>)
        ensures
            m == self.spec_millis(),
    {
        self.millis
    }
}

/// A clock offset as signed milliseconds from the Unix epoch: a distance
/// after it, truncated to `i64` as `as` does; a distance before it, negated,
/// and `i64::MIN` for one too far to negate.
pub open spec fn spec_signed_millis(offset: Result<u128, u128>) -> i64 {
    match offset {
        Ok(m) => m as i64,
        Err(m) => if m <= i64::MAX { (-(m as int)) as i64 } else { i64::MIN },
    }
}

/// Signed milliseconds from the Unix epoch for a clock offset: `Ok(m)` after
/// the epoch gives `m` (truncated to `i64`), `Err(m)` before it gives `-m`
/// (`i64::MIN` when that does not fit).
pub fn signed_millis(offset: Result<u128, u128>) -> (ms: i64)
    ensures
        ms == spec_signed_millis(offset),
{
    match offset {
        Ok(m) => m as i64,
        Err(m) => if m <= (i64::MAX as u128) { -(m as i64) } else { i64::MIN },
    }
}

/// The current time in milliseconds since the Unix epoch; a clock set before
/// the epoch gives a negative count.
pub fn now_ms() -> (ms: i64)
    ensures
        exists|offset: Result<u128, u128>| ms == spec_signed_millis(offset),
{
    let offset = system_clock_offset();
    let ms = signed_millis(offset);
    assert(ms == spec_signed_millis(offset));
    ms
}

/// The milliseconds after the Unix epoch that a clock offset stands for:
/// `None` for a clock before the epoch.
pub open spec fn spec_offset_millis(offset: Result<u128, u128>) -> Option<u128> {
    match offset {
        Ok(m) => Some(m),
        Err(_) => None,
    }
}

/// The time a clock offset stands for: `Ok(m)` is `m` milliseconds after the
/// Unix epoch; `Err(_)`, a clock before the epoch, has no milliseconds after
/// it.
pub fn utc_from_offset(offset: Result<u128, u128>) -> (t: UtcTime)
    ensures
        t.spec_millis() == spec_offset_millis(offset),
{
    match offset {
        Ok(m) => UtcTime { millis: Some(m) },
        Err(_) => UtcTime { millis: None },
    }
}

/// The current time, to the millisecond; a clock set before the epoch gives
/// a time with no milliseconds after it.
pub fn now_utc() -> (t: UtcTime)
    ensures
        exists|offset: Result<u128, u128>| t.spec_millis() == spec_offset_millis(offset),
{
    let offset = system_clock_offset();
    let t = utc_from_offset(offset);
    assert(t.spec_millis() == spec_offset_millis(offset));
    t
}

/// The time `ms` milliseconds after the Unix epoch (a negative count is read
/// as its two's-complement `u64`).
pub fn from_ms(ms: i64) -> (t: UtcTime)
    ensures
        t.spec_millis() == Some((ms as u64) as u128),
{
    UtcTime { millis: Some((ms as u64) as u128) }
}

/// The milliseconds from the Unix epoch to `time`, truncated to `i64`. A
/// time before the epoch is left out.
pub fn to_ms(time: UtcTime) -> (ms: i64)
    requires
        time.spec_millis() is Some,
    ensures
        ms == time.spec_millis().unwrap() as i64,
{
    match time.millis {
        Some(m) => m as i64,
        None => 0,
    }
}

/// The milliseconds of a time made from a millisecond count are that count.
pub proof fn lemma_from_ms_to_ms(ms: i64, time: UtcTime)
    requires
        time.spec_millis() == Some((ms as u64) as u128),
    ensures
        time.spec_millis().unwrap() as i64 == ms,
{
    assert(((ms as u64) as u128) as i64 == ms) by (bit_vector);
}

/// A time of at most `i64::MAX` milliseconds after the epoch, read as a
/// count and made again from it, is the same time.
pub proof fn lemma_to_ms_from_ms(time: UtcTime, again: UtcTime)
    requires
        time.spec_millis() matches Some(m) && m <= i64::MAX,
        again.spec_millis() == Some(((time.spec_millis().unwrap() as i64) as u64) as u128),
    ensures
        again.spec_millis() == time.spec_millis(),
{
    let m = time.spec_millis().unwrap();
    assert(((m as i64) as u64) as u128 == m) by (bit_vector)
        requires
            m <= 0x7FFF_FFFF_FFFF_FFFFu128,
    ;
}

/// Times made from millisecond counts keep their order and distance: for
/// `0 <= ms1 <= ms2`, the second lies `ms2 - ms1` milliseconds after the
/// first, and `from_ms(0)` is the epoch itself.
pub proof fn lemma_from_ms_order(ms1: i64, ms2: i64, t1: UtcTime, t2: UtcTime)
    requires
        0 <= ms1 <= ms2,
        t1.spec_millis() == Some((ms1 as u64) as u128),
        t2.spec_millis() == Some((ms2 as u64) as u128),
    ensures
        t1.spec_millis().unwrap() <= t2.spec_millis().unwrap(),
        t2.spec_millis().unwrap() - t1.spec_millis().unwrap() == ms2 - ms1,
        ms1 == 0 ==> t1.spec_millis() == Some(0u128),
{
}

/// Milliseconds from `since_ms` to `now`, when `since_ms` is not in the future
/// and the difference fits in `i64`.
pub open spec fn spec_elapsed(now: i64, since_ms: i64) -> Option<i64> {
    if now >= since_ms && now - since_ms <= i64::MAX {
        Some((now - since_ms) as i64)
    } else {
        None
    }
}

/// The milliseconds elapsed between `since_ms` and `now`, or `None` when
/// `since_ms` lies after `now` or the difference does not fit in `i64`.
pub fn elapsed_between(now: i64, since_ms: i64) -> (r: Option<i64>)
    ensures
        r == spec_elapsed(now, since_ms),
{
    if now >= since_ms {
        let diff: i128 = (now as i128) - (since_ms as i128);
        if diff <= (i64::MAX as i128) {
            Some(diff as i64)
        } else {
            None
        }
    } else {
        None
    }
}

/// The milliseconds elapsed since `since_ms`, or `None` when `since_ms` lies
/// in the future (or so far in the past that the difference overflows).
pub fn elapsed_ms(since_ms: i64) -> (r: Option<i64>)
    ensures
        r matches Some(e) ==> e >= 0,
        exists|now: i64| r == spec_elapsed(now, since_ms),
{
    let now = now_ms();
    elapsed_between(now, since_ms)
}

/// Whether an elapsed time is more than `seconds` seconds: false when there
/// is none.
pub open spec fn spec_older(elapsed: Option<i64>, seconds: i64) -> bool {
    match elapsed {
        Some(e) => e > seconds * 1000,
        None => false,
    }
}

/// Whether the elapsed time `elapsed` exceeds `seconds` seconds.
pub fn older_than(elapsed: Option<i64>, seconds: i64) -> (r: bool)
    ensures
        r == spec_older(elapsed, seconds),
{
    match elapsed {
        Some(e) => (e as i128) > (seconds as i128) * 1000,
        None => false,
    }
}

/// Whether more than `seconds` seconds have passed since `ms`; false for a
/// time in the future.
pub fn is_older_than(ms: i64, seconds: i64) -> (r: bool)
    ensures
        exists|now: i64| r == spec_older(spec_elapsed(now, ms), seconds),
{
    let elapsed = elapsed_ms(ms);
    older_than(elapsed, seconds)
}

} // verus!
