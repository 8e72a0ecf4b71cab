//! Dimming levels: device units in 40..=100 and percentages in 0..=100,
//! related by the affine map `percent = (units - 40) * 100 / 60`, rounded to
//! the nearest integer. No value of either scale lands halfway between two
//! integers of the other, so the nearest integer is always unique.

use vstd::prelude::*;

verus! {

/// Lowest dimming level of the panel, in device units.
pub const DIMMING_MIN: i32 = 40;

/// Highest dimming level of the panel, in device units.
pub const DIMMING_MAX: i32 = 100;

/// `v` moved into the interval from `lo` to `hi`.
pub open spec fn clamp_spec(v: int, lo: int, hi: int) -> int {
    if v < lo {
        lo
    } else if v > hi {
        hi
    } else {
        v
    }
}

/// A device-unit value brought into the panel's range.
pub open spec fn clamp_dimming_spec(level: int) -> int {
    clamp_spec(level, DIMMING_MIN as int, DIMMING_MAX as int)
}

/// The percentage that stands for a device-unit value: the integer nearest
/// to `(units - 40) * 100 / 60`, which is `(units - 40) * 5 / 3`, for the
/// clamped value. Adding a half and rounding down gives the nearest
/// integer.
pub open spec fn dimming_to_percent_spec(splendid_value: int) -> int {
    ((clamp_dimming_spec(splendid_value) - 40) * 10 + 3) / 6
}

/// The device-unit value that stands for a percentage: 40 plus the integer
/// nearest to `percent * 60 / 100`, which is `percent * 3 / 5`.
pub open spec fn percent_to_dimming_spec(percent: int) -> int {
    40 + (percent * 6 + 5) / 10
}

/// Brings `v` into the interval from `lo` to `hi`.
pub fn clamp(v: i32, lo: i32, hi: i32) -> (r: i32)
    requires
        lo <= hi,
    ensures
        r == clamp_spec(v as int, lo as int, hi as int),
        lo <= r <= hi,
{
    if v < lo {
        lo
    } else if v > hi {
        hi
    } else {
        v
    }
}

/// Converts dimming from device units (40-100) to a percentage (0-100).
/// Values outside the device range are clamped first.
pub fn dimming_to_percent(splendid_value: i32) -> (percent: i32)
    ensures
        percent == dimming_to_percent_spec(splendid_value as int),
        0 <= percent <= 100,
{
    let clamped: i32 = clamp(splendid_value, DIMMING_MIN, DIMMING_MAX);
    ((clamped - 40) * 10 + 3) / 6
}

/// Converts dimming from a percentage (0-100) to device units (40-100).
/// The input is not clamped: a percentage outside 0..=100 gives the value
/// of the same affine map outside the device range.
pub fn percent_to_dimming(percent: i32) -> (splendid_value: i32)
    ensures
        splendid_value == percent_to_dimming_spec(percent as int),
        0 <= percent <= 100 ==> 40 <= splendid_value <= 100,
{
    let tenths: i64 = percent as i64 * 6 + 5;
    let rounded: i64 = if tenths >= 0 {
        tenths / 10
    } else {
        -((9 - tenths) / 10)
    };
    (40 + rounded) as i32
}

/// Both conversions give the integer nearest to the exact affine image, and
/// the exact image never lies halfway between two integers: the percentage
/// is within a third of `(units - 40) * 5 / 3`, the device value within two
/// fifths of `40 + percent * 3 / 5`.
pub proof fn lemma_conversions_round_to_nearest(splendid_value: int, percent: int)
    ensures
        -1 <= 3 * dimming_to_percent_spec(splendid_value) - 5 * (clamp_dimming_spec(
            splendid_value,
        ) - 40) <= 1,
        -2 <= 5 * (percent_to_dimming_spec(percent) - 40) - 3 * percent <= 2,
{
}

/// A percentage is always in 0..=100, and a percentage in 0..=100 gives a
/// device value in 40..=100; the ends of one scale map to the ends of the
/// other.
pub proof fn lemma_conversion_ranges(splendid_value: int, percent: int)
    ensures
        0 <= dimming_to_percent_spec(splendid_value) <= 100,
        0 <= percent <= 100 ==> 40 <= percent_to_dimming_spec(percent) <= 100,
        splendid_value <= 40 ==> dimming_to_percent_spec(splendid_value) == 0,
        splendid_value >= 100 ==> dimming_to_percent_spec(splendid_value) == 100,
        percent_to_dimming_spec(0) == 40,
        percent_to_dimming_spec(100) == 100,
{
    lemma_conversions_round_to_nearest(splendid_value, percent);
    lemma_conversions_round_to_nearest(splendid_value, 0);
    lemma_conversions_round_to_nearest(splendid_value, 100);
}

/// Both conversions are monotonic.
pub proof fn lemma_conversions_monotonic(a: int, b: int)
    requires
        a <= b,
    ensures
        dimming_to_percent_spec(a) <= dimming_to_percent_spec(b),
        percent_to_dimming_spec(a) <= percent_to_dimming_spec(b),
{
    lemma_conversions_round_to_nearest(a, a);
    lemma_conversions_round_to_nearest(b, b);
}

/// A device value in 40..=100 survives the trip to a percentage and back.
pub proof fn lemma_dimming_survives_round_trip(splendid_value: int)
    requires
        40 <= splendid_value <= 100,
    ensures
        percent_to_dimming_spec(dimming_to_percent_spec(splendid_value)) == splendid_value,
{
    lemma_conversions_round_to_nearest(splendid_value, dimming_to_percent_spec(splendid_value));
}

/// A percentage in 0..=100 comes back from the trip to device units within
/// one unit of itself.
pub proof fn lemma_percent_round_trip_within_one(percent: int)
    requires
        0 <= percent <= 100,
    ensures
        -1 <= dimming_to_percent_spec(percent_to_dimming_spec(percent)) - percent <= 1,
{
    lemma_conversions_round_to_nearest(percent_to_dimming_spec(percent), percent);
}

/// The conversion from a percentage is lossy, but after one round trip it
/// is stable: converting the returned percentage again gives the same
/// device value.
pub proof fn lemma_percent_round_trip_is_stable(percent: int)
    requires
        0 <= percent <= 100,
    ensures
        percent_to_dimming_spec(dimming_to_percent_spec(percent_to_dimming_spec(percent)))
            == percent_to_dimming_spec(percent),
{
    lemma_conversion_ranges(0, percent);
    lemma_dimming_survives_round_trip(percent_to_dimming_spec(percent));
}

} // verus!
