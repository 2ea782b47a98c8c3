//! The colour band of the internal temperature: how far the probe has come
//! towards the target of the cook.
use vstd::prelude::*;

use crate::format::{c_to_f, fahrenheit_of};
use crate::telemetry::{Snapshot, SnapshotView};

verus! {

/// The band shown when no cook is active, and from 95 percent on.
pub const DONE_BAND: u8 = 6;

/// `ceil(a / b)` for a positive `b`.
pub open spec fn ceil_div(a: int, b: int) -> int
    recommends
        b > 0,
{
    (a + b - 1) / b
}

/// The internal temperature as a percentage of the target, both in
/// Fahrenheit, rounded up.
pub open spec fn percentage(internal_c: int, target_c: int) -> int {
    ceil_div(100 * fahrenheit_of(internal_c), fahrenheit_of(target_c))
}

/// The band of a percentage: 0–50, 51–59, 60–69, 70–79, 80–87, 88–94, 95 and
/// above. A negative percentage falls in the lowest band.
pub open spec fn band_of(p: int) -> u8 {
    if p <= 50 {
        0
    } else if p <= 59 {
        1
    } else if p <= 69 {
        2
    } else if p <= 79 {
        3
    } else if p <= 87 {
        4
    } else if p <= 94 {
        5
    } else {
        6
    }
}

/// The band of a reading: `DONE_BAND` without a cook; with a target that is
/// not above zero Fahrenheit, where the percentage means nothing, the lowest.
pub open spec fn temp_color(s: SnapshotView) -> u8 {
    match s.cook {
        None => DONE_BAND,
        Some(c) => if fahrenheit_of(c.target_temp_c) <= 0 {
            0
        } else {
            band_of(percentage(s.internal_temp_c, c.target_temp_c))
        },
    }
}

fn band(p: u64) -> (r: u8)
    ensures
        r == band_of(p as int),
{
    if p <= 50 {
        0
    } else if p <= 59 {
        1
    } else if p <= 69 {
        2
    } else if p <= 79 {
        3
    } else if p <= 87 {
        4
    } else if p <= 94 {
        5
    } else {
        6
    }
}

/// The colour band, 0 to 6, of the internal temperature of a reading.
pub fn calculate_internal_temp_color(snapshot: &Snapshot) -> (r: u8)
    ensures
        r == temp_color(snapshot@),
        r <= 6,
{
    match &snapshot.cook {
        None => DONE_BAND,
        Some(cook) => {
            let internal = c_to_f(snapshot.internal_temp_c);
            let target = c_to_f(cook.target_temp_c);
            if target <= 0 {
                return 0;
            }
            let num: i64 = 100 * internal + target - 1;
            if num < 0 {
                assert((num as int) / (target as int) < 0) by (nonlinear_arith)
                    requires
                        num < 0,
                        target > 0,
                ;
                return 0;
            }
            let p: u64 = (num as u64) / (target as u64);
            band(p)
        },
    }
}

/// Without a cook the band is `DONE_BAND`, whatever the temperatures.
pub proof fn lemma_no_cook_is_done(s: SnapshotView)
    requires
        s.cook is None,
    ensures
        temp_color(s) == DONE_BAND,
{
}

} // verus!
