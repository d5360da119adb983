//! The rain gauge's tip count as it is kept across deep sleep.

use vstd::prelude::*;

verus! {

/// The largest tip count that is taken at its word.
pub const MAX_RAIN_TIPS: u32 = 100;

/// What survives deep sleep of the rain gauge: the stored tip count, which
/// may be anything after a cold start, and the time of the last tip in
/// seconds since boot, 0 for none.
#[derive(Debug, Clone, Copy, PartialEq, Eq, Structural)]
pub struct RainGauge {
    pub tips: u32,
    pub last_tip: u64,
}

/// The tip count that a stored value stands for: a value over the limit is
/// what uninitialised memory held, and stands for none.
pub open spec fn sane_tips(stored: u32) -> u32 {
    if stored > MAX_RAIN_TIPS {
        0
    } else {
        stored
    }
}

/// The gauge after a tip at `now`. The first tip always counts; a later one
/// counts if a last tip is on record and more than the debounce time has
/// passed since.
pub open spec fn tipped(gauge: RainGauge, now: u64, debounce_s: u64) -> RainGauge {
    let current = sane_tips(gauge.tips);
    if current == 0 || (gauge.last_tip != 0 && now - gauge.last_tip > debounce_s) {
        RainGauge { tips: (current + 1) as u32, last_tip: now }
    } else {
        gauge
    }
}

/// Reads the tip count.
pub fn load_rain_tips(gauge: &RainGauge) -> (tips: u32)
    ensures
        tips == sane_tips(gauge.tips),
        tips <= MAX_RAIN_TIPS,
{
    if gauge.tips > MAX_RAIN_TIPS {
        0
    } else {
        gauge.tips
    }
}

/// Records a tip of the rain gauge seen at `now`, in seconds since boot.
pub fn inc_rain_tips(gauge: &mut RainGauge, now: u64, debounce_s: u64)
    ensures
        *final(gauge) == tipped(*old(gauge), now, debounce_s),
{
    let current = load_rain_tips(gauge);
    let last_tip = gauge.last_tip;
    if current == 0 {
        gauge.tips = current + 1;
        gauge.last_tip = now;
        return ;
    }
    if last_tip != 0 && now.saturating_sub(last_tip) > debounce_s {
        gauge.tips = current + 1;
        gauge.last_tip = now;
    }
}

} // verus!
