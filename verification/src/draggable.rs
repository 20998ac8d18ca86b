//! The capability contract every object placed on a drag area implements.

use crate::coord::max0;
use crate::coord::rect_hit;
use vstd::prelude::*;

verus! {

/// A drawing failure reported by a [`Draggable::draw`] implementation. It is
/// fatal for the frame being rendered: the render pass aborts the remaining
/// draws and surfaces the error to the caller.
#[derive(Clone, Copy, PartialEq, Eq, Structural, Debug)]
pub struct DrawError;

/// An object that can be rendered on a drawing context and dragged.
///
/// The four spec functions are the object's mathematical face: its spatial
/// extent, its hit region, its pan-permission region, and its liveness. Each
/// executable query is bound to the matching spec function by its contract,
/// so everything the drag area proves about hit-testing, panning and the
/// retention sweep holds for any implementation that meets these contracts.
///
/// The customary hit region of a solid rectangular object is the bounding
/// box of its limits; [`rect_hit`] and [`crate::rect_contains`] provide that
/// definition for implementations that want it. The customary
/// pan-permission region is the complement of the hit region.
pub trait Draggable: Sized {
    /// The drawing surface handed through to [`Draggable::draw`].
    type Ctx;

    /// How far the object extends from its draw origin, as magnitudes
    /// `(neg_x, pos_x, neg_y, pos_y)`. The default is no extent at all;
    /// an implementation whose `get_limits` reports anything else must
    /// override it to match.
    open spec fn limits(&self) -> (int, int, int, int) {
        (0int, 0int, 0int, 0int)
    }

    /// Whether a point, relative to the object's draw origin, grabs the
    /// object. The default hit region is the axis-aligned box the limits
    /// describe, read as magnitudes.
    open spec fn hit(&self, x: int, y: int) -> bool {
        rect_hit(
            (
                max0(self.limits().0),
                max0(self.limits().1),
                max0(self.limits().2),
                max0(self.limits().3),
            ),
            x,
            y,
        )
    }

    /// Whether a point, relative to the object's draw origin, may serve as a
    /// handle for panning the whole canvas. The default is the complement
    /// of the hit region.
    open spec fn scroll_ok(&self, x: int, y: int) -> bool {
        !self.hit(x, y)
    }

    /// Whether the object is to be kept at the next retention sweep. The
    /// default keeps it forever.
    open spec fn keep(&self) -> bool {
        true
    }

    /// Renders the object with its origin at `(x, y)` in surface
    /// coordinates.
    fn draw(&self, context: &mut Self::Ctx, x: i64, y: i64) -> Result<(), DrawError>;

    /// Reports the object's extent from the draw origin as a tuple of
    /// magnitudes `(neg_x, pos_x, neg_y, pos_y)`; e.g. a centered circle of
    /// radius 50 reports `(50, 50, 50, 50)`.
    fn get_limits(&self) -> (r: (i64, i64, i64, i64))
        ensures
            self.limits() == (r.0 as int, r.1 as int, r.2 as int, r.3 as int),
    ;

    /// Given coordinates relative to the object's last draw origin, reports
    /// whether the point serves as a handle for dragging the object.
    fn contains(&self, x: i64, y: i64) -> (r: bool)
        ensures
            r == self.hit(x as int, y as int),
    ;

    /// Given coordinates relative to the object's last draw origin, reports
    /// whether the point may serve as a handle for panning the canvas.
    fn can_scroll(&self, x: i64, y: i64) -> (r: bool)
        ensures
            r == self.scroll_ok(x as int, y as int),
    ;

    /// Reports whether to keep the object. It is queried once per render
    /// pass, never during hit-testing or drag handling; an object whose
    /// answer turns false is removed at the next render, not before.
    fn retain(&self) -> (r: bool)
        ensures
            r == self.keep(),
    ;

    /// Run when a point of the object's hit region is double clicked with
    /// the primary button.
    fn on_double_click(&self) {
    }

    /// Run when a point of the object's hit region is single clicked with
    /// the middle button.
    fn on_middle_click(&self) {
    }

    /// Run when a point of the object's hit region is single clicked with
    /// the secondary button.
    fn on_right_click(&self) {
    }
}

/// A hook the drag area runs immediately before or after a render pass,
/// with the drawing context and the surface size. Its effect is the
/// client's business; the drag area only promises when it runs.
pub trait DrawHook<C>: Sized {
    /// Runs the hook.
    fn on_draw(&mut self, context: &mut C, width: i32, height: i32);
}

/// The hook that does nothing, for drag areas that need none.
pub struct NoHook;

impl<C> DrawHook<C> for NoHook {
    fn on_draw(&mut self, _context: &mut C, _width: i32, _height: i32) {
    }
}

} // verus!
