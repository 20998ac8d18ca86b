//! The drag area: the interaction state machine over an object registry.

use crate::coord::calculate_limits;
use crate::coord::sat_add;
use crate::coord::sat_sub;
use crate::draggable::Draggable;
use crate::draggable::DrawError;
use crate::draggable::DrawHook;
use crate::handle::Handle;
use crate::model::AreaView;
use crate::model::DragView;
use crate::registry::EntryView;
use crate::registry::Registry;
use std::rc::Rc;
use vstd::prelude::*;

verus! {

/// Which mouse button a click event carries. The toolkit adapter filters
/// click counts before calling in — a double click for the primary button,
/// a single click for the others — so the drag area does not re-filter.
#[derive(Clone, Copy, PartialEq, Eq, Structural, Debug)]
pub enum MouseButton {
    /// The primary (usually left) button.
    Primary,
    /// The middle button.
    Middle,
    /// The secondary (usually right) button.
    Secondary,
}

/// The bookkeeping of one in-flight object drag.
#[derive(Clone, Copy)]
struct DragInfo {
    start_x: i64,
    start_y: i64,
    index: usize,
    relative_x: i64,
    relative_y: i64,
}

impl View for DragInfo {
    type V = DragView;

    closed spec fn view(&self) -> DragView {
        DragView {
            start_x: self.start_x as int,
            start_y: self.start_y as int,
            index: self.index as int,
            relative_x: self.relative_x as int,
            relative_y: self.relative_y as int,
        }
    }
}

/// A canvas of draggable objects. It owns the ordered object registry and
/// every piece of pointer-interaction state: hit-testing, promote-to-top,
/// drag tracking with clamping, optional panning, click dispatch, and the
/// per-frame sweep-and-draw pass.
///
/// `D` is the object type, `H` the type of the optional pre- and post-draw
/// hooks ([`crate::NoHook`] when none are wanted). The view of a drag area
/// is an [`AreaView`], and each event handler promises to move the view
/// exactly as the matching [`AreaView`] transition says.
pub struct DragArea<D: Draggable, H: DrawHook<D::Ctx>> {
    registry: Registry<D>,
    drag_info: Option<DragInfo>,
    scrollable: bool,
    scrolling: bool,
    translate_x: i64,
    translate_y: i64,
    drag_translate_x: i64,
    drag_translate_y: i64,
    width: i32,
    height: i32,
    pre_draw_hook: Option<H>,
    post_draw_hook: Option<H>,
}

impl<D: Draggable, H: DrawHook<D::Ctx>> View for DragArea<D, H> {
    type V = AreaView<D>;

    closed spec fn view(&self) -> AreaView<D> {
        AreaView {
            entries: self.registry@,
            drag: match self.drag_info {
                Some(info) => Some(info@),
                None => None,
            },
            scrollable: self.scrollable,
            scrolling: self.scrolling,
            translate_x: self.translate_x as int,
            translate_y: self.translate_y as int,
            drag_translate_x: self.drag_translate_x as int,
            drag_translate_y: self.drag_translate_y as int,
            width: self.width as int,
            height: self.height as int,
        }
    }
}

impl<D: Draggable, H: DrawHook<D::Ctx>> DragArea<D, H> {
    /// The pre-draw hook, if one is set.
    pub closed spec fn pre_hook(&self) -> Option<H> {
        self.pre_draw_hook
    }

    /// The post-draw hook, if one is set.
    pub closed spec fn post_hook(&self) -> Option<H> {
        self.post_draw_hook
    }

    /// Constructs a non-scrollable drag area of the given canvas size.
    pub fn new(width: i32, height: i32) -> (r: Self)
        ensures
            r@ == AreaView::<D>::initial(width as int, height as int, false),
            r.pre_hook() is None,
            r.post_hook() is None,
    {
        let r = DragArea {
            registry: Registry::new(),
            drag_info: None,
            scrollable: false,
            scrolling: false,
            translate_x: 0,
            translate_y: 0,
            drag_translate_x: 0,
            drag_translate_y: 0,
            width: width,
            height: height,
            pre_draw_hook: None,
            post_draw_hook: None,
        };
        proof {
            assert(r@ =~= AreaView::<D>::initial(width as int, height as int, false));
        }
        r
    }

    /// Constructs a scrollable drag area of the given canvas size.
    pub fn new_scrollable(width: i32, height: i32) -> (r: Self)
        ensures
            r@ == AreaView::<D>::initial(width as int, height as int, true),
            r.pre_hook() is None,
            r.post_hook() is None,
    {
        let mut r = Self::new(width, height);
        r.set_scrollable(true);
        proof {
            assert(r@ =~= AreaView::<D>::initial(width as int, height as int, true));
        }
        r
    }

    /// Adds an object by value at position `(x, y)`. The new entry starts
    /// bottom-most in paint order; registry order is insertion order until
    /// a drag promotes an entry.
    pub fn add(&mut self, item: D, x: i64, y: i64)
        ensures
            final(self)@ == old(self)@.with_entries(
                old(self)@.entries.push((EntryView { item: item, x: x as int, y: y as int })),
            ),
            final(self).pre_hook() == old(self).pre_hook(),
            final(self).post_hook() == old(self).post_hook(),
    {
        self.push_box(Box::new(item), x, y);
    }

    /// Adds an object contained in a `Box` at position `(x, y)`.
    pub fn push_box(&mut self, item: Box<D>, x: i64, y: i64)
        ensures
            final(self)@ == old(self)@.with_entries(
                old(self)@.entries.push((EntryView { item: *item, x: x as int, y: y as int })),
            ),
            final(self).pre_hook() == old(self).pre_hook(),
            final(self).post_hook() == old(self).post_hook(),
    {
        self.registry.push(Handle::Owned(item), x, y);
        proof {
            assert(self@ =~= old(self)@.with_entries(
                old(self)@.entries.push((EntryView { item: *item, x: x as int, y: y as int })),
            ));
        }
    }

    /// Adds an object shared through an `Rc` at position `(x, y)`. The
    /// caller keeps its own handle to the object.
    pub fn push_rc(&mut self, item: Rc<D>, x: i64, y: i64)
        ensures
            final(self)@ == old(self)@.with_entries(
                old(self)@.entries.push((EntryView { item: *item, x: x as int, y: y as int })),
            ),
            final(self).pre_hook() == old(self).pre_hook(),
            final(self).post_hook() == old(self).post_hook(),
    {
        self.registry.push(Handle::Shared(item), x, y);
        proof {
            assert(self@ =~= old(self)@.with_entries(
                old(self)@.entries.push((EntryView { item: *item, x: x as int, y: y as int })),
            ));
        }
    }

    /// Turns panning on or off.
    pub fn set_scrollable(&mut self, scrollable: bool)
        ensures
            final(self)@ == (AreaView { scrollable: scrollable, ..old(self)@ }),
            final(self).pre_hook() == old(self).pre_hook(),
            final(self).post_hook() == old(self).post_hook(),
    {
        self.scrollable = scrollable;
        proof {
            assert(self@ =~= (AreaView { scrollable: scrollable, ..old(self)@ }));
        }
    }

    /// The translation panning currently applies: the committed translation
    /// plus the in-flight one.
    pub fn get_scroll_location(&self) -> (r: (i64, i64))
        ensures
            (r.0 as int, r.1 as int) == self@.scroll_location(),
    {
        (
            sat_add(self.translate_x, self.drag_translate_x),
            sat_add(self.translate_y, self.drag_translate_y),
        )
    }

    /// Sets the hook run immediately before every render pass.
    pub fn set_pre_draw_func(&mut self, hook: H)
        ensures
            final(self)@ == old(self)@,
            final(self).pre_hook() == Some(hook),
            final(self).post_hook() == old(self).post_hook(),
    {
        self.pre_draw_hook = Some(hook);
    }

    /// Removes the pre-draw hook if there is one.
    pub fn unset_pre_draw_func(&mut self)
        ensures
            final(self)@ == old(self)@,
            final(self).pre_hook() is None,
            final(self).post_hook() == old(self).post_hook(),
    {
        self.pre_draw_hook = None;
    }

    /// Sets the hook run immediately after every render pass.
    pub fn set_post_draw_func(&mut self, hook: H)
        ensures
            final(self)@ == old(self)@,
            final(self).post_hook() == Some(hook),
            final(self).pre_hook() == old(self).pre_hook(),
    {
        self.post_draw_hook = Some(hook);
    }

    /// Removes the post-draw hook if there is one.
    pub fn unset_post_draw_func(&mut self)
        ensures
            final(self)@ == old(self)@,
            final(self).post_hook() is None,
            final(self).pre_hook() == old(self).pre_hook(),
    {
        self.post_draw_hook = None;
    }

    /// Runs the hit scan of a gesture start: the topmost entry the point
    /// grabs, if any, and whether every entry permits panning from it.
    fn scan_hits(&self, x: i64, y: i64) -> (r: (Option<usize>, bool))
        ensures
            match self@.topmost_hit(x as int, y as int) {
                Some(i) => r.0 matches Some(u) && u as int == i && i < self@.entries.len(),
                None => r.0 is None,
            },
            r.1 == self@.pan_allowed(x as int, y as int),
    {
        let n = self.registry.len();
        let mut best: Option<usize> = None;
        let mut scroll_all = true;
        let mut i: usize = 0;
        while i < n
            invariant
                n == self@.entries.len(),
                0 <= i <= n,
                match self@.topmost_hit_upto(i as int, x as int, y as int) {
                    Some(t) => best matches Some(u) && u as int == t,
                    None => best is None,
                },
                scroll_all ==> forall|t: int|
                    0 <= t < i ==> self@.scroll_ok_at(t, x as int, y as int),
                !scroll_all ==> exists|t: int|
                    0 <= t < i && !self@.scroll_ok_at(t, x as int, y as int),
                best matches Some(u) ==> u < n,
            decreases n - i,
        {
            let entry = self.registry.entry(i);
            let entry_x = entry.x;
            let entry_y = entry.y;
            let rel_x = sat_sub(sat_sub(x, self.translate_x), entry_x);
            let rel_y = sat_sub(sat_sub(y, self.translate_y), entry_y);
            let object = entry.handle.borrow();
            proof {
                assert(rel_x as int == self@.rel_x_at(i as int, x as int));
                assert(rel_y as int == self@.rel_y_at(i as int, y as int));
            }
            if object.contains(rel_x, rel_y) {
                best = Some(i);
                proof {
                    assert(self@.hit_at(i as int, x as int, y as int));
                }
            } else {
                proof {
                    assert(!self@.hit_at(i as int, x as int, y as int));
                }
            }
            if !object.can_scroll(rel_x, rel_y) {
                scroll_all = false;
                proof {
                    assert(!self@.scroll_ok_at(i as int, x as int, y as int));
                }
            }
            i = i + 1;
        }
        (best, scroll_all)
    }

    /// Handles gesture-begin at `(x, y)` in surface-local coordinates. A
    /// hit promotes the hit entry to the top of the paint order and starts
    /// an object drag on it; otherwise the gesture may become a pan, if
    /// panning is enabled and every entry permits it at this point. The
    /// result says whether the surface should be repainted; gesture-begin
    /// always asks for one.
    pub fn on_gesture_begin(&mut self, x: i64, y: i64) -> (redraw: bool)
        ensures
            final(self)@ == old(self)@.gesture_begin(x as int, y as int),
            final(self).pre_hook() == old(self).pre_hook(),
            final(self).post_hook() == old(self).post_hook(),
            redraw,
    {
        let (hit, scrolling) = self.scan_hits(x, y);
        match hit {
            Some(index) => {
                let entry = self.registry.entry(index);
                let relative_x = sat_sub(entry.x, x);
                let relative_y = sat_sub(entry.y, y);
                let new_index = self.registry.promote(index);
                self.drag_info = Some(
                    DragInfo {
                        start_x: x,
                        start_y: y,
                        index: new_index,
                        relative_x: relative_x,
                        relative_y: relative_y,
                    },
                );
            },
            None => {
                self.drag_info = None;
            },
        }
        self.scrolling = scrolling;
        proof {
            assert(self@ =~= old(self)@.gesture_begin(x as int, y as int));
        }
        true
    }

    /// Handles gesture-update at cumulative gesture offset `(x, y)`. During
    /// an object drag the dragged entry's position becomes the clamped
    /// candidate `start + offset + relative`; during a permitted pan the
    /// in-flight translation becomes the offset; with no gesture open this
    /// is a no-op. The result says whether the surface should be repainted.
    pub fn on_gesture_update(&mut self, x: i64, y: i64) -> (redraw: bool)
        ensures
            final(self)@ == old(self)@.gesture_update(x as int, y as int),
            final(self).pre_hook() == old(self).pre_hook(),
            final(self).post_hook() == old(self).post_hook(),
            redraw == old(self)@.gesture_update_redraws(),
    {
        match self.drag_info {
            Some(info) => {
                if info.index < self.registry.len() {
                    let entry = self.registry.entry(info.index);
                    let limits = entry.handle.borrow().get_limits();
                    let neg_x = if limits.0 < 0 { 0 } else { limits.0 };
                    let pos_x = if limits.1 < 0 { 0 } else { limits.1 };
                    let neg_y = if limits.2 < 0 { 0 } else { limits.2 };
                    let pos_y = if limits.3 < 0 { 0 } else { limits.3 };
                    let desired_x = sat_add(sat_add(info.start_x, x), info.relative_x);
                    let desired_y = sat_add(sat_add(info.start_y, y), info.relative_y);
                    let new_x = calculate_limits(
                        neg_x,
                        pos_x,
                        self.width,
                        self.scrollable,
                        desired_x,
                    );
                    let new_y = calculate_limits(
                        neg_y,
                        pos_y,
                        self.height,
                        self.scrollable,
                        desired_y,
                    );
                    self.registry.set_position(info.index, new_x, new_y);
                    proof {
                        assert(self@ =~= old(self)@.gesture_update(x as int, y as int));
                    }
                    true
                } else {
                    false
                }
            },
            None => {
                if self.scrollable && self.scrolling {
                    self.drag_translate_x = x;
                    self.drag_translate_y = y;
                    proof {
                        assert(self@ =~= old(self)@.gesture_update(x as int, y as int));
                    }
                    true
                } else {
                    false
                }
            },
        }
    }

    /// Handles gesture-end. An in-flight pan translation is committed and
    /// cleared, the drag bookkeeping is dropped, and the state returns to
    /// idle; an end without a matching begin is a no-op. Dragged objects
    /// need no commit here: their positions were written during the
    /// updates. The result says whether the surface should be repainted;
    /// gesture-end always asks for one.
    pub fn on_gesture_end(&mut self) -> (redraw: bool)
        ensures
            final(self)@ == old(self)@.gesture_end(),
            final(self).pre_hook() == old(self).pre_hook(),
            final(self).post_hook() == old(self).post_hook(),
            redraw,
    {
        self.translate_x = sat_add(self.translate_x, self.drag_translate_x);
        self.translate_y = sat_add(self.translate_y, self.drag_translate_y);
        self.drag_translate_x = 0;
        self.drag_translate_y = 0;
        self.drag_info = None;
        self.scrolling = false;
        proof {
            assert(self@ =~= old(self)@.gesture_end());
        }
        true
    }

    /// The indices of every entry whose hit region holds the pointer point
    /// under the committed pan translation, in ascending paint order. This
    /// is the broadcast set a click is dispatched to: all overlapping
    /// entries, not just the topmost.
    pub fn hits_at(&self, x: i64, y: i64) -> (hits: Vec<usize>)
        ensures
            forall|j: int|
                0 <= j < hits@.len() ==> #[trigger] hits@[j] < self@.entries.len()
                    && self@.hit_at(hits@[j] as int, x as int, y as int),
            forall|i: int|
                0 <= i < self@.entries.len() && self@.hit_at(i, x as int, y as int)
                    ==> hits@.contains(i as usize),
            forall|j1: int, j2: int| 0 <= j1 < j2 < hits@.len() ==> hits@[j1] < hits@[j2],
    {
        let n = self.registry.len();
        let mut hits: Vec<usize> = Vec::new();
        let mut i: usize = 0;
        while i < n
            invariant
                n == self@.entries.len(),
                0 <= i <= n,
                forall|j: int|
                    0 <= j < hits@.len() ==> #[trigger] hits@[j] < i && self@.hit_at(
                        hits@[j] as int,
                        x as int,
                        y as int,
                    ),
                forall|t: int|
                    0 <= t < i && self@.hit_at(t, x as int, y as int) ==> hits@.contains(
                        t as usize,
                    ),
                forall|j1: int, j2: int| 0 <= j1 < j2 < hits@.len() ==> hits@[j1] < hits@[j2],
            decreases n - i,
        {
            let entry = self.registry.entry(i);
            let rel_x = sat_sub(sat_sub(x, self.translate_x), entry.x);
            let rel_y = sat_sub(sat_sub(y, self.translate_y), entry.y);
            proof {
                assert(rel_x as int == self@.rel_x_at(i as int, x as int));
                assert(rel_y as int == self@.rel_y_at(i as int, y as int));
            }
            let ghost previous = hits@;
            if entry.handle.borrow().contains(rel_x, rel_y) {
                hits.push(i);
                proof {
                    assert(self@.hit_at(i as int, x as int, y as int));
                    assert(hits@[hits@.len() - 1] == i);
                    assert forall|t: int|
                        0 <= t < i + 1 && self@.hit_at(t, x as int, y as int) implies hits@
                        .contains(t as usize) by {
                        if t < i {
                            let w = choose|w: int|
                                0 <= w < previous.len() && previous[w] == t as usize;
                            assert(hits@[w] == t as usize);
                        } else {
                            assert(hits@[hits@.len() - 1] == t as usize);
                        }
                    }
                }
            } else {
                proof {
                    assert(!self@.hit_at(i as int, x as int, y as int));
                }
            }
            i = i + 1;
        }
        hits
    }

    /// Handles a click: the matching callback — `on_double_click` for the
    /// primary button, `on_middle_click` for the middle, `on_right_click`
    /// for the secondary — is run on every entry whose hit region holds the
    /// point under the committed pan translation, in paint order. The
    /// adapter filters click counts before calling in, so `click_count` is
    /// not consulted. Clicks never change the registry or its order; the
    /// result asks for a repaint because a callback may have changed what
    /// the next sweep retains.
    pub fn on_click(&self, button: MouseButton, _click_count: u32, x: i64, y: i64) -> (redraw:
        bool)
        ensures
            redraw,
    {
        let hits = self.hits_at(x, y);
        let n = hits.len();
        let mut j: usize = 0;
        while j < n
            invariant
                n == hits@.len(),
                forall|t: int|
                    0 <= t < hits@.len() ==> #[trigger] hits@[t] < self@.entries.len(),
            decreases n - j,
        {
            let index = hits[j];
            let object = self.registry.entry(index).handle.borrow();
            match button {
                MouseButton::Primary => object.on_double_click(),
                MouseButton::Middle => object.on_middle_click(),
                MouseButton::Secondary => object.on_right_click(),
            }
            j = j + 1;
        }
        true
    }

    /// Draws every entry in paint order at its effective position — entry
    /// position plus committed and in-flight pan translation — aborting at
    /// the first failed draw.
    fn draw_all(&self, context: &mut D::Ctx) -> (r: Result<(), DrawError>) {
        let n = self.registry.len();
        let mut i: usize = 0;
        while i < n
            invariant
                n == self@.entries.len(),
            decreases n - i,
        {
            let entry = self.registry.entry(i);
            let eff_x = sat_add(sat_add(entry.x, self.translate_x), self.drag_translate_x);
            let eff_y = sat_add(sat_add(entry.y, self.translate_y), self.drag_translate_y);
            match entry.handle.borrow().draw(context, eff_x, eff_y) {
                Ok(()) => (),
                Err(e) => {
                    return Err(e);
                },
            }
            i = i + 1;
        }
        Ok(())
    }

    /// Renders one frame: the pre-draw hook if set, then the retention
    /// sweep, then every surviving entry in paint order at its position
    /// composed with the pan translations, then the post-draw hook if set.
    /// A failed draw is fatal for the frame: the remaining draws and the
    /// post-draw hook are skipped and the error is surfaced. The sweep is
    /// the only state change a render pass makes.
    pub fn render(&mut self, context: &mut D::Ctx, width: i32, height: i32) -> (r: Result<
        (),
        DrawError,
    >)
        ensures
            final(self)@ == old(self)@.rendered(),
            final(self).pre_hook() is Some <==> old(self).pre_hook() is Some,
            final(self).post_hook() is Some <==> old(self).post_hook() is Some,
    {
        match &mut self.pre_draw_hook {
            Some(hook) => hook.on_draw(context, width, height),
            None => (),
        }
        self.registry.sweep_retain();
        proof {
            assert(self@ =~= old(self)@.rendered());
        }
        match self.draw_all(context) {
            Ok(()) => (),
            Err(e) => {
                return Err(e);
            },
        }
        match &mut self.post_draw_hook {
            Some(hook) => hook.on_draw(context, width, height),
            None => (),
        }
        Ok(())
    }
}

impl<D: Draggable, H: DrawHook<D::Ctx>> Default for DragArea<D, H> {
    /// The default drag area: empty, zero-sized and non-scrollable.
    fn default() -> (r: Self)
        ensures
            r@ == AreaView::<D>::initial(0, 0, false),
            r.pre_hook() is None,
            r.post_hook() is None,
    {
        Self::new(0, 0)
    }
}

} // verus!
