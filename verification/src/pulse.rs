//! Pulses from the rain gauge and the anemometer: the flags that the pin
//! interrupts raise, the counts that the main task keeps, and a counter that
//! ignores edges which follow each other too closely.

use vstd::prelude::*;

verus! {

/// The flags raised by the pin interrupts and the pulse counts drained by the
/// reporting task. The owner passes it by reference to whoever updates it.
#[derive(Debug, Clone, Copy, PartialEq, Eq, Structural)]
pub struct PulseCounters {
    /// Set when the rain gauge has tipped since the last check.
    pub rain_flag: bool,
    /// Set when the anemometer has turned since the last check.
    pub rotation_flag: bool,
    /// Tips of the rain gauge since the last report.
    pub rain_count: u32,
    /// Turns of the anemometer since the last report.
    pub rotation_count: u32,
}

impl PulseCounters {
    /// No flag raised, nothing counted.
    pub fn new() -> (counters: PulseCounters)
        ensures
            counters == (PulseCounters {
                rain_flag: false,
                rotation_flag: false,
                rain_count: 0,
                rotation_count: 0,
            }),
    {
        PulseCounters { rain_flag: false, rotation_flag: false, rain_count: 0, rotation_count: 0 }
    }
}

/// Records that the rain gauge's pin fired.
pub fn rain_pin_callback(counters: &mut PulseCounters)
    ensures
        *final(counters) == (PulseCounters { rain_flag: true, ..*old(counters) }),
{
    counters.rain_flag = true;
}

/// Records that the anemometer's pin fired.
pub fn anemo_pin_callback(counters: &mut PulseCounters)
    ensures
        *final(counters) == (PulseCounters { rotation_flag: true, ..*old(counters) }),
{
    counters.rotation_flag = true;
}

/// Counts a pending rain pulse and lowers its flag. Returns whether there
/// was one, in which case the pin's interrupt has to be enabled again.
pub fn check_rain_flag(counters: &mut PulseCounters) -> (pending: bool)
    requires
        old(counters).rain_flag ==> old(counters).rain_count < u32::MAX,
    ensures
        pending == old(counters).rain_flag,
        pending ==> *final(counters) == (PulseCounters {
            rain_flag: false,
            rain_count: (old(counters).rain_count + 1) as u32,
            ..*old(counters)
        }),
        !pending ==> *final(counters) == *old(counters),
{
    if counters.rain_flag {
        counters.rain_count = counters.rain_count + 1;
        counters.rain_flag = false;
        true
    } else {
        false
    }
}

/// Counts a pending anemometer pulse and lowers its flag. Returns whether
/// there was one, in which case the pin's interrupt has to be enabled again.
pub fn check_rotation_flag(counters: &mut PulseCounters) -> (pending: bool)
    requires
        old(counters).rotation_flag ==> old(counters).rotation_count < u32::MAX,
    ensures
        pending == old(counters).rotation_flag,
        pending ==> *final(counters) == (PulseCounters {
            rotation_flag: false,
            rotation_count: (old(counters).rotation_count + 1) as u32,
            ..*old(counters)
        }),
        !pending ==> *final(counters) == *old(counters),
{
    if counters.rotation_flag {
        counters.rotation_count = counters.rotation_count + 1;
        counters.rotation_flag = false;
        true
    } else {
        false
    }
}

/// Hands out the rain count for a report and starts it again at zero.
pub fn take_rain_count(counters: &mut PulseCounters) -> (count: u32)
    ensures
        count == old(counters).rain_count,
        *final(counters) == (PulseCounters { rain_count: 0, ..*old(counters) }),
{
    let count = counters.rain_count;
    counters.rain_count = 0;
    count
}

/// Hands out the rotation count for a report and starts it again at zero.
pub fn take_rotation_count(counters: &mut PulseCounters) -> (count: u32)
    ensures
        count == old(counters).rotation_count,
        *final(counters) == (PulseCounters { rotation_count: 0, ..*old(counters) }),
{
    let count = counters.rotation_count;
    counters.rotation_count = 0;
    count
}

/// The time from `last` to `now`, two readings of one monotonic clock; none
/// where `now` is the earlier one.
pub open spec fn elapsed(last: u128, now: u128) -> int {
    if now >= last {
        now - last
    } else {
        0
    }
}

/// Tells whether a period has passed since `last`, and if so moves `last` to
/// `now`.
pub fn check_time_passed(last: &mut u128, now: u128, period: u128) -> (passed: bool)
    ensures
        passed == (elapsed(*old(last), now) >= period),
        *final(last) == if passed {
            now
        } else {
            *old(last)
        },
{
    let elapsed: u128 = if now >= *last {
        now - *last
    } else {
        0
    };
    if elapsed >= period {
        *last = now;
        true
    } else {
        false
    }
}

/// A count of pin edges in which an edge counts only if at least the
/// debounce time has passed since the last one that counted.
#[derive(Debug, Clone, Copy, PartialEq, Eq, Structural)]
pub struct EdgeCounter {
    /// Edges counted so far.
    pub count: u64,
    /// Clock reading, in ticks, of the last edge that counted.
    pub last: u64,
    /// Shortest distance, in ticks, between two edges that count.
    pub debounce: u64,
}

impl EdgeCounter {
    /// The counter after an edge at `now`.
    pub open spec fn after_edge(self, now: u64) -> EdgeCounter {
        if now - self.last >= self.debounce {
            EdgeCounter { count: (self.count + 1) as u64, last: now, ..self }
        } else {
            self
        }
    }

    /// A counter started at `now`, set up so that an edge right away counts.
    pub fn new(now: u64, debounce: u64) -> (counter: EdgeCounter)
        requires
            debounce <= now,
        ensures
            counter == (EdgeCounter { count: 0, last: (now - debounce) as u64, debounce }),
    {
        EdgeCounter { count: 0, last: now - debounce, debounce }
    }

    /// Takes an edge seen at `now`.
    pub fn on_edge(&mut self, now: u64)
        requires
            old(self).last <= now,
            old(self).count < u64::MAX,
        ensures
            *final(self) == old(self).after_edge(now),
    {
        if now - self.last >= self.debounce {
            self.count = self.count + 1;
            self.last = now;
        }
    }
}

} // verus!
