//! Clocks: a calibrated microsecond clock on the UTC scale and cheap nanosecond
//! timestamps with stopwatches.

use vstd::prelude::*;

use std::time::{Duration, Instant};

verus! {

#[verifier::external_type_specification]
#[verifier::external_body]
pub struct ExInstant(Instant);

/// Calls `std::time::Instant::now()`: a reading of the monotonic clock.
#[verifier::external_body]
pub(crate) fn instant_now() -> Instant {
    Instant::now()
}

/// Calls `Instant::elapsed` and `Duration::as_micros`: microseconds since `i`, which the
/// clock decides; nothing is claimed of the value.
#[verifier::external_body]
fn instant_elapsed_micros(i: &Instant) -> u128 {
    i.elapsed().as_micros()
}

/// Calls `Instant::elapsed` and `Duration::as_nanos`: nanoseconds since `i`, which the
/// clock decides; nothing is claimed of the value.
#[verifier::external_body]
pub(crate) fn instant_elapsed_nanos(i: &Instant) -> u128 {
    i.elapsed().as_nanos()
}

/// Calls `Instant::elapsed` and `Duration::as_secs`: whole seconds since `i`; nothing is
/// claimed of the value.
#[verifier::external_body]
fn instant_elapsed_secs(i: &Instant) -> u64 {
    i.elapsed().as_secs()
}

/// Calls `Instant::duration_since` and `Duration::as_nanos`: nanoseconds from `earlier`
/// to `later` (zero when `later` comes first, as documented).
#[verifier::external_body]
fn instant_nanos_between(later: &Instant, earlier: &Instant) -> u128 {
    later.duration_since(*earlier).as_nanos()
}

/// Calls `Instant::duration_since` and `Duration::as_micros`: microseconds from
/// `earlier` to `later` (zero when `later` comes first, as documented).
#[verifier::external_body]
fn instant_micros_between(later: &Instant, earlier: &Instant) -> u128 {
    later.duration_since(*earlier).as_micros()
}

/// Calls `std::time::SystemTime::now()` and `duration_since(UNIX_EPOCH)`: nanoseconds
/// since the epoch, or none when the system time lies before it.
#[verifier::external_body]
fn system_time_nanos() -> Option<u128> {
    match std::time::SystemTime::now().duration_since(std::time::UNIX_EPOCH) {
        Ok(d) => Some(d.as_nanos()),
        Err(_) => None,
    }
}

/// The duration `std::time::Duration::from_nanos` makes of `nanos` nanoseconds.
pub uninterp spec fn nanos_duration(nanos: u64) -> Duration;

/// Calls `std::time::Duration::from_nanos`, whose result depends on `nanos` alone.
#[verifier::external_body]
fn duration_from_nanos(nanos: u64) -> (r: Duration)
    ensures
        r == nanos_duration(nanos),
{
    Duration::from_nanos(nanos)
}

/// `x` as an `i64`, held at `i64::MAX` when larger.
pub open spec fn saturate_i64(x: u128) -> i64 {
    if x > i64::MAX as u128 {
        i64::MAX
    } else {
        x as i64
    }
}

fn u128_to_i64(x: u128) -> (r: i64)
    ensures
        r == saturate_i64(x),
        r >= 0,
{
    if x > i64::MAX as u128 {
        i64::MAX
    } else {
        x as i64
    }
}

/// The system time in whole microseconds since the Unix epoch; none when the system
/// time lies before the epoch.
fn utc_micros_now() -> (r: Option<i64>)
    ensures
        r matches Some(u) ==> u >= 0,
{
    match system_time_nanos() {
        Some(n) => Some(u128_to_i64(n / 1000)),
        None => None,
    }
}

pub(crate) fn u128_to_u64(x: u128) -> (r: u64)
    ensures
        r == x as u64,
{
    x as u64
}

/// The time `elapsed_us` microseconds after `base_us`, wrapping as `i64` does.
pub fn micros_after(base_us: i64, elapsed_us: i64) -> (r: i64)
    ensures
        r == vstd::wrapping::i64_specs::wrapping_add(base_us, elapsed_us),
{
    base_us.wrapping_add(elapsed_us)
}

/// Index of the first smallest sample latency (the most trustworthy sample).
pub fn best_sample(latencies: &Vec<i64>) -> (r: usize)
    requires
        latencies@.len() > 0,
    ensures
        r < latencies@.len(),
        forall|j: int| 0 <= j < latencies@.len() ==> latencies@[r as int] <= latencies@[j],
        forall|j: int| 0 <= j < r ==> latencies@[j] > latencies@[r as int],
{
    let mut best: usize = 0;
    let mut i: usize = 1;
    while i < latencies.len()
        invariant
            latencies@.len() > 0,
            best < i <= latencies@.len(),
            forall|j: int| 0 <= j < i ==> latencies@[best as int] <= latencies@[j],
            forall|j: int| 0 <= j < best ==> latencies@[j] > latencies@[best as int],
        decreases latencies@.len() - i,
    {
        if latencies[i] < latencies[best] {
            best = i;
        }
        i = i + 1;
    }
    best
}

/// Whether `current_us` lies more than a millisecond from `expected_us`.
pub open spec fn drifted_spec(expected_us: i64, current_us: i64) -> bool {
    current_us - expected_us > 1000 || expected_us - current_us > 1000
}

/// Whether a measured UTC time has drifted more than a millisecond from the time the
/// monotonic clock predicts.
pub fn drifted(expected_us: i64, current_us: i64) -> (r: bool)
    ensures
        r == drifted_spec(expected_us, current_us),
{
    let drift: i128 = current_us as i128 - expected_us as i128;
    drift > 1000 || drift < -1000
}

/// Microsecond clock on the UTC scale: a UTC timestamp taken once, advanced by the
/// monotonic clock, and re-based when it drifts.
#[derive(Debug)]
pub struct HighPerformanceClock {
    base_instant: Instant,
    base_timestamp_us: i64,
    last_calibration: Instant,
    calibration_interval_secs: u64,
}

impl HighPerformanceClock {
    /// The UTC microsecond timestamp the clock counts from.
    pub closed spec fn spec_base_timestamp_us(&self) -> i64 {
        self.base_timestamp_us
    }

    /// The monotonic reading that goes with the base timestamp.
    pub closed spec fn spec_base_instant(&self) -> Instant {
        self.base_instant
    }

    /// The monotonic reading of the last calibration.
    pub closed spec fn spec_last_calibration(&self) -> Instant {
        self.last_calibration
    }

    /// Seconds between calibrations.
    pub closed spec fn spec_calibration_interval_secs(&self) -> u64 {
        self.calibration_interval_secs
    }

    /// A clock that calibrates every five minutes.
    pub fn new() -> (r: Self)
        ensures
            r.spec_calibration_interval_secs() == 300,
    {
        Self::new_with_calibration_interval(300)
    }

    /// Takes three (monotonic, UTC) samples and counts from the one whose UTC
    /// reading took least long. A UTC reading before the Unix epoch counts as the epoch.
    pub fn new_with_calibration_interval(calibration_interval_secs: u64) -> (r: Self)
        ensures
            r.spec_calibration_interval_secs() == calibration_interval_secs,
            r.spec_last_calibration() == r.spec_base_instant(),
            r.spec_base_timestamp_us() >= 0,
    {
        let mut instants: Vec<Instant> = Vec::new();
        let mut stamps: Vec<i64> = Vec::new();
        let mut latencies: Vec<i64> = Vec::new();
        let mut k: usize = 0;
        while k < 3
            invariant
                k <= 3,
                instants@.len() == k,
                stamps@.len() == k,
                latencies@.len() == k,
                forall|j: int| 0 <= j < k ==> stamps@[j] >= 0,
            decreases 3 - k,
        {
            let before = instant_now();
            let timestamp = match utc_micros_now() {
                Some(u) => u,
                None => 0,
            };
            let after = instant_now();
            let latency = u128_to_i64(instant_nanos_between(&after, &before));
            instants.push(before);
            stamps.push(timestamp);
            latencies.push(latency);
            k = k + 1;
        }
        let best = best_sample(&latencies);
        let base_instant = instants[best];
        HighPerformanceClock {
            base_instant,
            base_timestamp_us: stamps[best],
            last_calibration: base_instant,
            calibration_interval_secs,
        }
    }

    /// Current UTC time in microseconds: the base timestamp advanced by the
    /// microseconds the monotonic clock counts since the base reading.
    pub fn now_micros(&self) -> (r: i64)
        ensures
            exists|e: i64| e >= 0 && r == vstd::wrapping::i64_specs::wrapping_add(self.spec_base_timestamp_us(), e),
    {
        let elapsed = u128_to_i64(instant_elapsed_micros(&self.base_instant));
        let r = micros_after(self.base_timestamp_us, elapsed);
        assert(elapsed >= 0 && r == vstd::wrapping::i64_specs::wrapping_add(self.spec_base_timestamp_us(), elapsed));
        r
    }

    /// Like `now_micros`, after the calibration decision of `calibrate_at`, made on the
    /// whole seconds since the last calibration and, when those reach the interval, on
    /// fresh monotonic and UTC readings.
    pub fn now_micros_with_calibration(&mut self) -> (r: i64)
        ensures
            exists|secs: u64, now: Instant, utc_us: Option<i64>, since_base_us: u128|
                calibration_step(*old(self), *final(self), secs, now, utc_us, since_base_us),
            exists|e: i64| e >= 0 && r == vstd::wrapping::i64_specs::wrapping_add(final(self).spec_base_timestamp_us(), e),
    {
        let secs = instant_elapsed_secs(&self.last_calibration);
        if secs >= self.calibration_interval_secs {
            let now = instant_now();
            let utc_us = utc_micros_now();
            let since_base_us = instant_micros_between(&now, &self.base_instant);
            let _ = self.calibrate_at(secs, now, utc_us, since_base_us);
        } else {
            assert(calibration_step(*old(self), *self, secs, self.last_calibration, None, 0));
        }
        self.now_micros()
    }

    /// One calibration decision, on readings taken by the caller: `secs` whole seconds
    /// since the last calibration, the monotonic reading `now`, the UTC reading `utc_us`
    /// (none when it failed) and `since_base_us` microseconds from the base reading to
    /// `now`. Once `secs` reaches the interval, the clock's prediction is compared with
    /// the UTC reading and the clock re-bases on a drift over a millisecond; either way
    /// `now` becomes the last calibration. Returns whether the interval had passed.
    pub fn calibrate_at(&mut self, secs: u64, now: Instant, utc_us: Option<i64>, since_base_us: u128) -> (r: bool)
        ensures
            r == (secs >= old(self).spec_calibration_interval_secs()),
            calibration_step(*old(self), *final(self), secs, now, utc_us, since_base_us),
    {
        if secs < self.calibration_interval_secs {
            return false;
        }
        let expected_utc = micros_after(self.base_timestamp_us, u128_to_i64(since_base_us));
        match utc_us {
            Some(current_utc) => {
                if drifted(expected_utc, current_utc) {
                    self.base_instant = now;
                    self.base_timestamp_us = current_utc;
                }
            },
            None => {},
        }
        self.last_calibration = now;
        true
    }
}

/// Two readings of one clock taken at monotonic counts `e1 <= e2` (microseconds since
/// its base reading) do not go backwards and differ by `e2 - e1`, as long as the later
/// one does not pass `i64::MAX`.
pub proof fn law_readings_follow_monotonic_count(base_us: i64, e1: i64, e2: i64)
    requires
        0 <= e1 <= e2,
        base_us + e2 <= i64::MAX,
    ensures
        vstd::wrapping::i64_specs::wrapping_add(base_us, e1) <= vstd::wrapping::i64_specs::wrapping_add(base_us, e2),
        vstd::wrapping::i64_specs::wrapping_add(base_us, e2) - vstd::wrapping::i64_specs::wrapping_add(base_us, e1)
            == e2 - e1,
{
}

/// `next` is `prev` after one calibration decision on the readings `secs`, `now`,
/// `utc_us` and `since_base_us` (see `HighPerformanceClock::calibrate_at`).
pub open spec fn calibration_step(
    prev: HighPerformanceClock,
    next: HighPerformanceClock,
    secs: u64,
    now: Instant,
    utc_us: Option<i64>,
    since_base_us: u128,
) -> bool {
    if secs < prev.spec_calibration_interval_secs() {
        next == prev
    } else {
        let expected = vstd::wrapping::i64_specs::wrapping_add(prev.spec_base_timestamp_us(), saturate_i64(since_base_us));
        let rebase = utc_us matches Some(u) && drifted_spec(expected, u);
        &&& next.spec_calibration_interval_secs() == prev.spec_calibration_interval_secs()
        &&& next.spec_last_calibration() == now
        &&& rebase ==> next.spec_base_instant() == now && next.spec_base_timestamp_us() == utc_us->0
        &&& !rebase ==> next.spec_base_instant() == prev.spec_base_instant() && next.spec_base_timestamp_us()
            == prev.spec_base_timestamp_us()
    }
}

impl Default for HighPerformanceClock {
    fn default() -> (r: Self)
        ensures
            r.spec_calibration_interval_secs() == 300,
    {
        Self::new()
    }
}

/// Current time in microseconds on the UTC scale (zero when the system time lies
/// before the Unix epoch).
pub fn now_micros() -> (r: i64)
    ensures
        r >= 0,
{
    match utc_micros_now() {
        Some(u) => u,
        None => 0,
    }
}

/// Microseconds from `start_timestamp_us` to `now_us`, wrapping as `i64` does.
pub fn micros_between(now_us: i64, start_timestamp_us: i64) -> (r: i64)
    ensures
        r == vstd::wrapping::i64_specs::wrapping_sub(now_us, start_timestamp_us),
{
    now_us.wrapping_sub(start_timestamp_us)
}

/// Microseconds elapsed since `start_timestamp_us` (UTC scale): a current reading of
/// `now_micros` minus the start, wrapping as `i64` does.
pub fn elapsed_micros_since(start_timestamp_us: i64) -> (r: i64)
    ensures
        exists|n: i64| n >= 0 && r == vstd::wrapping::i64_specs::wrapping_sub(n, start_timestamp_us),
{
    let now = now_micros();
    let r = micros_between(now, start_timestamp_us);
    assert(now >= 0 && r == vstd::wrapping::i64_specs::wrapping_sub(now, start_timestamp_us));
    r
}

/// A system-time reading in nanoseconds as a 64-bit timestamp: its low 64 bits, or zero
/// for a reading before the Unix epoch (none).
pub fn nanos_timestamp(reading: Option<u128>) -> (r: u64)
    ensures
        reading is None ==> r == 0,
        reading matches Some(n) ==> r == n as u64,
{
    match reading {
        Some(n) => u128_to_u64(n),
        None => 0,
    }
}

/// Current timestamp in nanoseconds since the Unix epoch, truncated to 64 bits
/// (zero when the system time lies before the epoch): `nanos_timestamp` of the
/// system-time reading.
pub fn fast_now_nanos() -> (r: u64)
    ensures
        exists|reading: Option<u128>| r == nanos_timestamp_spec(reading),
{
    let reading = system_time_nanos();
    let r = nanos_timestamp(reading);
    assert(r == nanos_timestamp_spec(reading));
    r
}

/// What `nanos_timestamp` gives for `reading`.
pub open spec fn nanos_timestamp_spec(reading: Option<u128>) -> u64 {
    match reading {
        Some(n) => n as u64,
        None => 0,
    }
}

/// Whole microseconds in `nanos` nanoseconds.
pub fn nanos_to_micros(nanos: u64) -> (r: u64)
    ensures
        r == nanos / 1000,
{
    nanos / 1000
}

/// Whole milliseconds in `nanos` nanoseconds.
pub fn nanos_to_millis(nanos: u64) -> (r: u64)
    ensures
        r == nanos / 1_000_000,
{
    nanos / 1_000_000
}

/// Current timestamp in microseconds: `nanos_to_micros` of the nanosecond timestamp.
pub fn fast_now_micros() -> (r: u64)
    ensures
        exists|reading: Option<u128>| r == nanos_timestamp_spec(reading) / 1000,
{
    let n = fast_now_nanos();
    let r = nanos_to_micros(n);
    let ghost reading = choose|reading: Option<u128>| n == nanos_timestamp_spec(reading);
    assert(r == nanos_timestamp_spec(reading) / 1000);
    r
}

/// Current timestamp in milliseconds: `nanos_to_millis` of the nanosecond timestamp.
pub fn fast_now_millis() -> (r: u64)
    ensures
        exists|reading: Option<u128>| r == nanos_timestamp_spec(reading) / 1_000_000,
{
    let n = fast_now_nanos();
    let r = nanos_to_millis(n);
    let ghost reading = choose|reading: Option<u128>| n == nanos_timestamp_spec(reading);
    assert(r == nanos_timestamp_spec(reading) / 1_000_000);
    r
}

/// Nanoseconds from `start_nanos` to `now_nanos`; zero when `now_nanos` is earlier.
pub open spec fn elapsed_nanos_spec(now_nanos: u64, start_nanos: u64) -> u64 {
    if now_nanos >= start_nanos {
        (now_nanos - start_nanos) as u64
    } else {
        0
    }
}

/// Nanoseconds from `start_nanos` to `now_nanos`; zero when `now_nanos` is earlier.
pub fn elapsed_between(now_nanos: u64, start_nanos: u64) -> (r: u64)
    ensures
        r == (if now_nanos >= start_nanos {
            now_nanos - start_nanos
        } else {
            0
        }),
{
    now_nanos.saturating_sub(start_nanos)
}

/// Nanoseconds elapsed since `start_nanos` (zero if the clock reads earlier).
pub fn fast_elapsed_nanos(start_nanos: u64) -> (r: u64)
    ensures
        r <= u64::MAX - start_nanos,
        exists|now: u64| r == elapsed_nanos_spec(now, start_nanos),
{
    let now = fast_now_nanos();
    let r = elapsed_between(now, start_nanos);
    assert(r == elapsed_nanos_spec(now, start_nanos));
    r
}

/// Time elapsed since `start_nanos`: the duration of `fast_elapsed_nanos`, so zero
/// for a start at `u64::MAX`.
pub fn fast_elapsed(start_nanos: u64) -> (r: Duration)
    ensures
        exists|n: u64| n <= u64::MAX - start_nanos && r == nanos_duration(n),
        start_nanos == u64::MAX ==> r == nanos_duration(0),
{
    let n = fast_elapsed_nanos(start_nanos);
    duration_from_nanos(n)
}

/// Stopwatch over the fast timestamp.
pub struct FastStopwatch {
    start_nanos: u64,
    label: &'static str,
}

impl FastStopwatch {
    /// Timestamp the stopwatch started at.
    pub closed spec fn spec_start_nanos(&self) -> u64 {
        self.start_nanos
    }

    /// The stopwatch's label.
    pub closed spec fn spec_label(&self) -> &'static str {
        self.label
    }

    /// Starts a stopwatch now.
    pub fn start(label: &'static str) -> (r: Self)
        ensures
            r.spec_label() == label,
    {
        FastStopwatch { start_nanos: fast_now_nanos(), label }
    }

    /// The stopwatch's label.
    pub fn label(&self) -> (r: &'static str)
        ensures
            r == self.spec_label(),
    {
        self.label
    }

    /// Nanoseconds since the start, at some reading `now` of the nanosecond timestamp.
    pub fn elapsed_nanos(&self) -> (r: u64)
        ensures
            r <= u64::MAX - self.spec_start_nanos(),
            exists|now: u64| r == elapsed_nanos_spec(now, self.spec_start_nanos()),
    {
        fast_elapsed_nanos(self.start_nanos)
    }

    /// Time since the start.
    pub fn elapsed(&self) -> (r: Duration)
        ensures
            exists|n: u64| n <= u64::MAX - self.spec_start_nanos() && r == nanos_duration(n),
    {
        fast_elapsed(self.start_nanos)
    }

    /// Whole microseconds since the start: `nanos_to_micros` of the elapsed nanoseconds
    /// at some reading `now` of the nanosecond timestamp.
    pub fn elapsed_micros(&self) -> (r: u64)
        ensures
            exists|now: u64| r == elapsed_nanos_spec(now, self.spec_start_nanos()) / 1000,
    {
        let n = self.elapsed_nanos();
        let r = nanos_to_micros(n);
        let ghost now = choose|now: u64| n == elapsed_nanos_spec(now, self.spec_start_nanos());
        assert(r == elapsed_nanos_spec(now, self.spec_start_nanos()) / 1000);
        r
    }

    /// Whole milliseconds since the start: `nanos_to_millis` of the elapsed nanoseconds
    /// at some reading `now` of the nanosecond timestamp.
    pub fn elapsed_millis(&self) -> (r: u64)
        ensures
            exists|now: u64| r == elapsed_nanos_spec(now, self.spec_start_nanos()) / 1_000_000,
    {
        let n = self.elapsed_nanos();
        let r = nanos_to_millis(n);
        let ghost now = choose|now: u64| n == elapsed_nanos_spec(now, self.spec_start_nanos());
        assert(r == elapsed_nanos_spec(now, self.spec_start_nanos()) / 1_000_000);
        r
    }
}

} // verus!
