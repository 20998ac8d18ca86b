//! Saturating coordinate arithmetic and the drag clamping rule.

use vstd::prelude::*;

verus! {

/// The mathematical value a saturating `i64` operation produces: `v` pinned
/// to the representable range.
pub open spec fn clip(v: int) -> int {
    if v < i64::MIN {
        i64::MIN as int
    } else if v > i64::MAX {
        i64::MAX as int
    } else {
        v
    }
}

/// Saturating addition on coordinates.
pub fn sat_add(a: i64, b: i64) -> (r: i64)
    ensures
        r as int == clip(a + b),
{
    match a.checked_add(b) {
        Some(v) => v,
        None => {
            if b > 0 {
                i64::MAX
            } else {
                i64::MIN
            }
        },
    }
}

/// Saturating subtraction on coordinates.
pub fn sat_sub(a: i64, b: i64) -> (r: i64)
    ensures
        r as int == clip(a - b),
{
    match a.checked_sub(b) {
        Some(v) => v,
        None => {
            if b < 0 {
                i64::MAX
            } else {
                i64::MIN
            }
        },
    }
}

/// Where a drag may put a coordinate. On a scrollable canvas the desired
/// coordinate passes through untouched; on a bounded one it is pinned by a
/// sequential pair of tests: first the lower bound `neg_limit`, then the
/// upper bound `area_size - pos_limit`. When the object is larger than the
/// canvas (`area_size - pos_limit < neg_limit`) the two tests do not act as
/// a symmetric clamp: a coordinate below the lower bound is sent to
/// `neg_limit` before the upper bound is ever consulted.
pub open spec fn clamp_coord(
    neg_limit: int,
    pos_limit: int,
    area_size: int,
    scrollable: bool,
    desired: int,
) -> int {
    if !scrollable {
        if desired < neg_limit {
            neg_limit
        } else if desired > clip(area_size - pos_limit) {
            clip(area_size - pos_limit)
        } else {
            desired
        }
    } else {
        desired
    }
}

/// A magnitude consumed from an object's limits: negative values are read
/// as zero.
pub open spec fn max0(v: int) -> int {
    if v < 0 {
        0
    } else {
        v
    }
}

/// The hit region of a solid rectangular object: the point, relative to the
/// draw origin, falls within the axis-aligned box the limits describe.
pub open spec fn rect_hit(limits: (int, int, int, int), x: int, y: int) -> bool {
    -limits.0 <= x <= limits.1 && -limits.2 <= y <= limits.3
}

/// Decides [`rect_hit`]: whether a point, relative to an object's draw
/// origin, lies within the axis-aligned box described by the object's
/// limits `(neg_x, pos_x, neg_y, pos_y)`.
pub fn rect_contains(limits: (i64, i64, i64, i64), x: i64, y: i64) -> (r: bool)
    ensures
        r == rect_hit((limits.0 as int, limits.1 as int, limits.2 as int, limits.3 as int), x as int, y as int),
{
    let wide_x = x as i128;
    let wide_y = y as i128;
    -(limits.0 as i128) <= wide_x && wide_x <= limits.1 as i128 && -(limits.2 as i128) <= wide_y
        && wide_y <= limits.3 as i128
}

/// Clamps a dragged coordinate to the canvas, exactly as [`clamp_coord`]
/// says. `area_size` is the canvas width or height, whichever axis is being
/// clamped; `scrollable` disables clamping altogether.
pub fn calculate_limits(
    neg_limit: i64,
    pos_limit: i64,
    area_size: i32,
    scrollable: bool,
    desired_coord: i64,
) -> (r: i64)
    ensures
        r as int == clamp_coord(
            neg_limit as int,
            pos_limit as int,
            area_size as int,
            scrollable,
            desired_coord as int,
        ),
{
    if !scrollable {
        if desired_coord < neg_limit {
            return neg_limit;
        }
        let upper = sat_sub(area_size as i64, pos_limit);
        if desired_coord > upper {
            return upper;
        }
    }
    desired_coord
}

} // verus!
