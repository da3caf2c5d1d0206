//! From an orientation sample to a cursor target.
//!
//! The sensor's axes are swapped against the screen's: its `z` rate moves the
//! cursor horizontally and its `x` rate vertically, both against the sign.
//! Steps of at most [`THRESHOLD`] pixels on both axes are noise and leave the
//! cursor where it is.

use vstd::prelude::*;
use crate::binary64::{lemma_rate_below_one_step, magnitude_below, scale, scaled, SENSITIVITY};

verus! {

/// The deadband: the cursor moves only for a step of more pixels than this on
/// some axis.
pub const THRESHOLD: i32 = 1;

/// Absolute screen coordinates of the cursor.
#[derive(Clone, Copy, Debug, PartialEq, Eq, Structural)]
pub struct CursorPosition {
    pub x: i32,
    pub y: i32,
}

/// Three angular rates, each the encoding of a binary64.
#[derive(Clone, Copy, Debug, PartialEq, Eq, Structural)]
pub struct OrientationSample {
    pub x: u64,
    pub y: u64,
    pub z: u64,
}

/// What a sample does to the cursor.
#[derive(Clone, Copy, Debug, PartialEq, Eq, Structural)]
pub enum Motion {
    /// Both steps lie within the deadband.
    Hold,
    /// The cursor goes to this position.
    MoveTo(CursorPosition),
    /// The target lies beyond the coordinates that `i32` can name.
    OffRange,
}

/// The distance between two coordinates.
pub open spec fn distance(a: int, b: int) -> int {
    if a >= b {
        a - b
    } else {
        b - a
    }
}

/// Where a sample sends the cursor, as unbounded coordinates.
pub open spec fn target(current: CursorPosition, sample: OrientationSample) -> (int, int) {
    (current.x - scaled(sample.z), current.y - scaled(sample.x))
}

/// Whether a sample moves the cursor: its target lies more than the threshold
/// away on some axis.
pub open spec fn leaves_deadband(current: CursorPosition, sample: OrientationSample) -> bool {
    let (new_x, new_y) = target(current, sample);
    distance(new_x, current.x as int) > THRESHOLD || distance(new_y, current.y as int) > THRESHOLD
}

/// Whether a coordinate can be handed to the host.
pub open spec fn in_range(coordinate: int) -> bool {
    i32::MIN <= coordinate <= i32::MAX
}

/// What a sample does to a cursor at `current`.
pub open spec fn mapped(current: CursorPosition, sample: OrientationSample) -> Motion {
    let (new_x, new_y) = target(current, sample);
    if !leaves_deadband(current, sample) {
        Motion::Hold
    } else if in_range(new_x) && in_range(new_y) {
        Motion::MoveTo(CursorPosition { x: new_x as i32, y: new_y as i32 })
    } else {
        Motion::OffRange
    }
}

/// Whether a step of `pixels` is more than noise.
fn exceeds_threshold(pixels: i32) -> (r: bool)
    ensures
        r == (distance(pixels as int, 0) > THRESHOLD),
{
    pixels > THRESHOLD || pixels < -THRESHOLD
}

/// Maps an orientation sample to what the cursor at `current` shall do.
pub fn map_motion(current: CursorPosition, sample: &OrientationSample) -> (r: Motion)
    ensures
        r == mapped(current, *sample),
{
    let step_x: i32 = scale(sample.z);
    let step_y: i32 = scale(sample.x);
    if !exceeds_threshold(step_x) && !exceeds_threshold(step_y) {
        return Motion::Hold;
    }
    let new_x: i64 = current.x as i64 - step_x as i64;
    let new_y: i64 = current.y as i64 - step_y as i64;
    if new_x < i32::MIN as i64 || new_x > i32::MAX as i64 || new_y < i32::MIN as i64 || new_y
        > i32::MAX as i64 {
        return Motion::OffRange;
    }
    Motion::MoveTo(CursorPosition { x: new_x as i32, y: new_y as i32 })
}

/// Whether both rates that move the cursor are smaller in magnitude than
/// the threshold divided by the sensitivity.
pub open spec fn is_quiet(sample: OrientationSample) -> bool {
    &&& magnitude_below(sample.x, THRESHOLD as int, SENSITIVITY as int)
    &&& magnitude_below(sample.z, THRESHOLD as int, SENSITIVITY as int)
}

/// A quiet sample leaves the cursor where it is, wherever that is.
pub proof fn lemma_quiet_sample_holds(current: CursorPosition, sample: OrientationSample)
    requires
        is_quiet(sample),
    ensures
        mapped(current, sample) == Motion::Hold,
{
    lemma_rate_below_one_step(sample.x);
    lemma_rate_below_one_step(sample.z);
}

/// A sample that leaves the deadband sends the cursor to its old position
/// less the scaled rates, `z` for the horizontal axis and `x` for the
/// vertical one, provided that `i32` can name the place.
pub proof fn lemma_moved_cursor_is_exact(current: CursorPosition, sample: OrientationSample)
    requires
        leaves_deadband(current, sample),
        in_range(current.x - scaled(sample.z)),
        in_range(current.y - scaled(sample.x)),
    ensures
        mapped(current, sample) == Motion::MoveTo(
            CursorPosition {
                x: (current.x - scaled(sample.z)) as i32,
                y: (current.y - scaled(sample.x)) as i32,
            },
        ),
        mapped(current, sample)->MoveTo_0.x == current.x - scaled(sample.z),
        mapped(current, sample)->MoveTo_0.y == current.y - scaled(sample.x),
{
}

/// The cursor moves exactly when some scaled rate is more than the
/// threshold in magnitude, and the place can be named.
pub proof fn lemma_moves_iff_beyond_threshold(current: CursorPosition, sample: OrientationSample)
    ensures
        leaves_deadband(current, sample) <==> (distance(scaled(sample.z), 0) > THRESHOLD
            || distance(scaled(sample.x), 0) > THRESHOLD),
        mapped(current, sample) is Hold <==> !leaves_deadband(current, sample),
{
}

} // verus!
