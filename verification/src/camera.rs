//! Confining the orbit camera's zoom and pitch to their legal ranges.

use vstd::prelude::*;

verus! {

/// The camera never comes closer to the player than one world unit,
/// here a thousand fixed-point thousandths.
pub const MIN_DISTANCE_MILLI: u32 = 1000;

/// The distance after one zoom step: scrolling toward the player
/// shortens it, scrolling away lengthens it, and it is clamped to at
/// least one world unit and to what the distance field can hold.
pub open spec fn zoomed_distance_spec(distance: int, scroll: int) -> int {
    let moved = distance - scroll;
    if moved < MIN_DISTANCE_MILLI {
        MIN_DISTANCE_MILLI as int
    } else if moved > u32::MAX {
        u32::MAX as int
    } else {
        moved
    }
}

/// Applies an accumulated scroll step to the camera distance, in
/// thousandths of a world unit. A positive `scroll_milli` zooms in.
pub fn zoomed_distance(distance_milli: u32, scroll_milli: i32) -> (r: u32)
    ensures
        r as int == zoomed_distance_spec(distance_milli as int, scroll_milli as int),
        r >= MIN_DISTANCE_MILLI,
{
    let moved: i64 = distance_milli as i64 - scroll_milli as i64;
    if moved < MIN_DISTANCE_MILLI as i64 {
        MIN_DISTANCE_MILLI
    } else if moved > u32::MAX as i64 {
        u32::MAX
    } else {
        moved as u32
    }
}

/// The pitch after one mouse step, kept inside the caller's limits so
/// the camera cannot flip over the pole. Inside the limits the step
/// applies in full; at a limit the pitch stops there.
pub open spec fn updated_pitch_spec(pitch: int, delta: int, lo: int, hi: int) -> int {
    let moved = pitch + delta;
    if moved < lo {
        lo
    } else if moved > hi {
        hi
    } else {
        moved
    }
}

/// Applies an accumulated mouse step to the camera pitch, in
/// thousandths of a radian, clamping it into `lo..=hi`.
pub fn updated_pitch(pitch_milli: i32, delta_milli: i32, lo: i32, hi: i32) -> (r: i32)
    requires
        lo <= hi,
    ensures
        r as int == updated_pitch_spec(
            pitch_milli as int,
            delta_milli as int,
            lo as int,
            hi as int,
        ),
        lo <= r <= hi,
{
    let moved: i64 = pitch_milli as i64 + delta_milli as i64;
    if moved < lo as i64 {
        lo
    } else if moved > hi as i64 {
        hi
    } else {
        moved as i32
    }
}

} // verus!
