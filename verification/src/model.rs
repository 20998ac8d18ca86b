//! The mathematical model of a drag area: what state it carries and the
//! transition each pointer event makes on that state. The executable
//! [`crate::DragArea`] promises, event by event, that its view moves exactly
//! as these transitions say.

use crate::coord::clamp_coord;
use crate::coord::clip;
use crate::coord::max0;
use crate::draggable::Draggable;
use crate::registry::sweep_view;
use crate::registry::EntryView;
use vstd::prelude::*;

verus! {

/// The bookkeeping of one in-flight object drag: where the gesture started,
/// which entry it holds, and where the entry's origin stood relative to the
/// gesture start.
#[verifier::ext_equal]
pub struct DragView {
    /// The x coordinate of the gesture start.
    pub start_x: int,
    /// The y coordinate of the gesture start.
    pub start_y: int,
    /// The index of the dragged entry, after its promotion to the top.
    pub index: int,
    /// `entry.x - start_x` at drag start, pinned to the coordinate range.
    pub relative_x: int,
    /// `entry.y - start_y` at drag start, pinned to the coordinate range.
    pub relative_y: int,
}

/// The state of a drag area: the registered entries in paint order, at most
/// one in-flight drag, the pan flags and translations, and the canvas size
/// used for clamping.
#[verifier::ext_equal]
pub struct AreaView<D> {
    /// The entries, in paint order: index 0 is painted first, the last
    /// index is topmost.
    pub entries: Seq<EntryView<D>>,
    /// The in-flight object drag, if one is live.
    pub drag: Option<DragView>,
    /// Whether the canvas may pan at all. Also decides clamping: dragged
    /// objects are clamped to the canvas exactly when it cannot pan.
    pub scrollable: bool,
    /// Whether the running gesture found every entry willing to pan at its
    /// starting point.
    pub scrolling: bool,
    /// The committed pan translation, x.
    pub translate_x: int,
    /// The committed pan translation, y.
    pub translate_y: int,
    /// The in-flight pan translation, x; zero outside an active pan drag.
    pub drag_translate_x: int,
    /// The in-flight pan translation, y; zero outside an active pan drag.
    pub drag_translate_y: int,
    /// The canvas width objects are clamped to.
    pub width: int,
    /// The canvas height objects are clamped to.
    pub height: int,
}

impl<D: Draggable> AreaView<D> {
    /// The state a fresh drag area starts in.
    pub open spec fn initial(width: int, height: int, scrollable: bool) -> AreaView<D> {
        AreaView {
            entries: Seq::empty(),
            drag: None,
            scrollable: scrollable,
            scrolling: false,
            translate_x: 0,
            translate_y: 0,
            drag_translate_x: 0,
            drag_translate_y: 0,
            width: width,
            height: height,
        }
    }

    /// The same state with other entries.
    pub open spec fn with_entries(self, entries: Seq<EntryView<D>>) -> AreaView<D> {
        AreaView { entries: entries, ..self }
    }

    /// The x coordinate of the pointer point `x`, relative to the draw
    /// origin of the entry at `i` under the committed pan translation.
    pub open spec fn rel_x_at(self, i: int, x: int) -> int {
        clip(clip(x - self.translate_x) - self.entries[i].x)
    }

    /// The y analog of [`AreaView::rel_x_at`].
    pub open spec fn rel_y_at(self, i: int, y: int) -> int {
        clip(clip(y - self.translate_y) - self.entries[i].y)
    }

    /// Whether the pointer point grabs the entry at `i`.
    pub open spec fn hit_at(self, i: int, x: int, y: int) -> bool {
        self.entries[i].item.hit(self.rel_x_at(i, x), self.rel_y_at(i, y))
    }

    /// Whether the entry at `i` permits panning from the pointer point.
    pub open spec fn scroll_ok_at(self, i: int, x: int, y: int) -> bool {
        self.entries[i].item.scroll_ok(self.rel_x_at(i, x), self.rel_y_at(i, y))
    }

    /// The topmost hit among the first `n` entries: the highest index below
    /// `n` whose entry the pointer point grabs.
    pub open spec fn topmost_hit_upto(self, n: int, x: int, y: int) -> Option<int>
        decreases n,
    {
        if n <= 0 {
            None
        } else if self.hit_at(n - 1, x, y) {
            Some(n - 1)
        } else {
            self.topmost_hit_upto(n - 1, x, y)
        }
    }

    /// The entry a pointer gesture targets: the topmost (highest index)
    /// entry whose hit region holds the pointer point, or nothing.
    pub open spec fn topmost_hit(self, x: int, y: int) -> Option<int> {
        self.topmost_hit_upto(self.entries.len() as int, x, y)
    }

    /// Whether a pan gesture may start at the pointer point: every entry
    /// must permit it. One entry answering `can_scroll` with false at the
    /// point disables panning for the whole gesture.
    pub open spec fn pan_allowed(self, x: int, y: int) -> bool {
        forall|i: int| 0 <= i < self.entries.len() ==> self.scroll_ok_at(i, x, y)
    }

    /// The pan location: committed plus in-flight translation.
    pub open spec fn scroll_location(self) -> (int, int) {
        (
            clip(self.translate_x + self.drag_translate_x),
            clip(self.translate_y + self.drag_translate_y),
        )
    }

    /// What gesture-begin at a pointer point does. A hit promotes the
    /// target entry to the top and opens an object drag on it; otherwise
    /// any previous drag bookkeeping is dropped. Either way the gesture's
    /// pan permission is recorded.
    pub open spec fn gesture_begin(self, x: int, y: int) -> AreaView<D> {
        let scrolling = self.pan_allowed(x, y);
        match self.topmost_hit(x, y) {
            Some(i) => {
                let e = self.entries[i];
                AreaView {
                    entries: self.entries.remove(i).push(e),
                    drag: Some(
                        DragView {
                            start_x: x,
                            start_y: y,
                            index: self.entries.len() - 1,
                            relative_x: clip(e.x - x),
                            relative_y: clip(e.y - y),
                        },
                    ),
                    scrolling: scrolling,
                    ..self
                }
            },
            None => AreaView { drag: None, scrolling: scrolling, ..self },
        }
    }

    /// What gesture-update at cumulative gesture offset `(x, y)` does.
    /// During an object drag the dragged entry moves to the clamped
    /// candidate position; during a permitted pan the in-flight translation
    /// becomes the offset; otherwise nothing changes. A drag whose entry
    /// index no longer exists (a retention sweep may have removed entries
    /// mid-drag) moves nothing.
    pub open spec fn gesture_update(self, x: int, y: int) -> AreaView<D> {
        match self.drag {
            Some(d) => {
                if 0 <= d.index < self.entries.len() {
                    let e = self.entries[d.index];
                    let lim = e.item.limits();
                    let nx = clamp_coord(
                        max0(lim.0),
                        max0(lim.1),
                        self.width,
                        self.scrollable,
                        clip(clip(d.start_x + x) + d.relative_x),
                    );
                    let ny = clamp_coord(
                        max0(lim.2),
                        max0(lim.3),
                        self.height,
                        self.scrollable,
                        clip(clip(d.start_y + y) + d.relative_y),
                    );
                    self.with_entries(
                        self.entries.update(d.index, EntryView { item: e.item, x: nx, y: ny }),
                    )
                } else {
                    self
                }
            },
            None => {
                if self.scrollable && self.scrolling {
                    AreaView { drag_translate_x: x, drag_translate_y: y, ..self }
                } else {
                    self
                }
            },
        }
    }

    /// Whether gesture-update changes anything worth repainting: an object
    /// drag is live on an existing entry, or a permitted pan is running.
    pub open spec fn gesture_update_redraws(self) -> bool {
        match self.drag {
            Some(d) => 0 <= d.index < self.entries.len(),
            None => self.scrollable && self.scrolling,
        }
    }

    /// What gesture-end does: the in-flight pan translation is committed
    /// and cleared, and the state returns to idle. Without a preceding
    /// begin this is a no-op.
    pub open spec fn gesture_end(self) -> AreaView<D> {
        AreaView {
            drag: None,
            scrolling: false,
            translate_x: clip(self.translate_x + self.drag_translate_x),
            translate_y: clip(self.translate_y + self.drag_translate_y),
            drag_translate_x: 0,
            drag_translate_y: 0,
            ..self
        }
    }

    /// What a render pass does to the state: the retention sweep and
    /// nothing else.
    pub open spec fn rendered(self) -> AreaView<D> {
        self.with_entries(sweep_view(self.entries))
    }
}

} // verus!
