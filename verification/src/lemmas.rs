//! The guarantees of the drag area that span several operations, each
//! stated over the model and proved once and for all.

use crate::coord::clamp_coord;
use crate::coord::max0;
use crate::draggable::Draggable;
use crate::model::AreaView;
use crate::registry::sweep_view;
use crate::registry::EntryView;
use vstd::prelude::*;

verus! {

/// Appending an entry disturbs nothing: every existing entry keeps its
/// index and the new one stands at the end. So, until a promotion
/// intervenes, registry order — which is both paint order and iteration
/// order — equals insertion order.
pub proof fn lemma_insertion_order<D: Draggable>(s: Seq<EntryView<D>>, e: EntryView<D>)
    ensures
        s.push(e).len() == s.len() + 1,
        s.push(e)[s.len() as int] == e,
        forall|i: int| 0 <= i < s.len() ==> s.push(e)[i] == s[i],
{
}

/// Among the first `n` entries, the hit scan finds the topmost match: the
/// index it returns holds a hit, every higher index below `n` does not, and
/// it returns nothing only when no index below `n` holds a hit.
pub proof fn lemma_topmost_hit_upto_is_topmost<D: Draggable>(
    v: AreaView<D>,
    n: int,
    x: int,
    y: int,
)
    ensures
        match v.topmost_hit_upto(n, x, y) {
            Some(i) => 0 <= i < n && v.hit_at(i, x, y) && (forall|j: int|
                i < j < n ==> !v.hit_at(j, x, y)),
            None => forall|j: int| 0 <= j < n ==> !v.hit_at(j, x, y),
        },
    decreases n,
{
    if n > 0 && !v.hit_at(n - 1, x, y) {
        lemma_topmost_hit_upto_is_topmost(v, n - 1, x, y);
    }
}

/// Hit-testing targets the topmost matching entry: the one the scan
/// returns holds a hit and no entry above it — at a higher index, painted
/// later — does; and the scan comes back empty only when no entry at all
/// holds a hit.
pub proof fn lemma_topmost_hit_is_topmost<D: Draggable>(v: AreaView<D>, x: int, y: int)
    ensures
        match v.topmost_hit(x, y) {
            Some(i) => 0 <= i < v.entries.len() && v.hit_at(i, x, y) && (forall|j: int|
                i < j < v.entries.len() ==> !v.hit_at(j, x, y)),
            None => forall|j: int| 0 <= j < v.entries.len() ==> !v.hit_at(j, x, y),
        },
{
    lemma_topmost_hit_upto_is_topmost(v, v.entries.len() as int, x, y);
}

/// On a bounded canvas the clamp keeps a coordinate within
/// `[neg_limit, area_size - pos_limit]`, whatever was asked for, as long as
/// that interval is not empty; on a scrollable canvas the clamp does not
/// act at all. An object larger than the canvas makes the interval empty
/// and is out of this statement's scope: there the sequential tie-break of
/// [`clamp_coord`] decides.
pub proof fn lemma_clamp_within_bounds(
    neg_limit: int,
    pos_limit: int,
    area_size: int,
    desired: int,
)
    requires
        0 <= neg_limit <= i64::MAX,
        neg_limit <= area_size - pos_limit,
    ensures
        neg_limit <= clamp_coord(neg_limit, pos_limit, area_size, false, desired) <= area_size
            - pos_limit,
        clamp_coord(neg_limit, pos_limit, area_size, true, desired) == desired,
{
}

/// A drag update on a bounded canvas never moves the dragged entry outside
/// `[neg_limit, area - pos_limit]` on either axis, whatever offset the
/// gesture reports — provided the object fits the canvas, so that the
/// interval is not empty.
pub proof fn lemma_update_keeps_dragged_in_bounds<D: Draggable>(v: AreaView<D>, x: int, y: int)
    requires
        !v.scrollable,
        v.drag matches Some(d) && 0 <= d.index < v.entries.len() && max0(
            v.entries[d.index].item.limits().0,
        ) <= v.width - max0(v.entries[d.index].item.limits().1) && max0(
            v.entries[d.index].item.limits().2,
        ) <= v.height - max0(v.entries[d.index].item.limits().3) && max0(
            v.entries[d.index].item.limits().0,
        ) <= i64::MAX && max0(v.entries[d.index].item.limits().2) <= i64::MAX,
    ensures
        v.drag matches Some(d) ==> ({
            let moved = v.gesture_update(x, y).entries[d.index];
            let lim = v.entries[d.index].item.limits();
            max0(lim.0) <= moved.x <= v.width - max0(lim.1) && max0(lim.2) <= moved.y <= v.height
                - max0(lim.3)
        }),
{
    let d = v.drag->Some_0;
    let lim = v.entries[d.index].item.limits();
    lemma_clamp_within_bounds(
        max0(lim.0),
        max0(lim.1),
        v.width,
        crate::coord::clip(crate::coord::clip(d.start_x + x) + d.relative_x),
    );
    lemma_clamp_within_bounds(
        max0(lim.2),
        max0(lim.3),
        v.height,
        crate::coord::clip(crate::coord::clip(d.start_y + y) + d.relative_y),
    );
}

/// One entry refusing `can_scroll` at the gesture's starting point
/// disables panning for the whole gesture, however many others permit it.
pub proof fn lemma_pan_disabled_by_blocking_entry<D: Draggable>(
    v: AreaView<D>,
    x: int,
    y: int,
    i: int,
)
    requires
        0 <= i < v.entries.len(),
        !v.scroll_ok_at(i, x, y),
    ensures
        !v.gesture_begin(x, y).scrolling,
{
}

/// While a gesture's pan permission is off, no update moves the in-flight
/// pan translation: an object drag moves only its entry, and anything else
/// is a no-op.
pub proof fn lemma_no_pan_update_without_permission<D: Draggable>(v: AreaView<D>, x: int, y: int)
    requires
        !v.scrolling,
    ensures
        v.gesture_update(x, y).drag_translate_x == v.drag_translate_x,
        v.gesture_update(x, y).drag_translate_y == v.drag_translate_y,
{
}

/// Both pan translations of a drag area stand at zero.
pub open spec fn pan_untouched<D: Draggable>(v: AreaView<D>) -> bool {
    v.translate_x == 0 && v.translate_y == 0 && v.drag_translate_x == 0 && v.drag_translate_y == 0
}

/// While panning is disabled, the scroll location is `(0, 0)` and stays
/// there, whatever gestures, clicks, renders or additions arrive: every
/// transition keeps both translations at zero and leaves panning disabled,
/// so the claim carries through any sequence of events by induction.
pub proof fn lemma_scroll_location_zero_while_disabled<D: Draggable>(
    v: AreaView<D>,
    x: int,
    y: int,
    entries: Seq<EntryView<D>>,
)
    requires
        !v.scrollable,
        pan_untouched(v),
    ensures
        v.scroll_location() == (0int, 0int),
        pan_untouched(v.gesture_begin(x, y)) && !v.gesture_begin(x, y).scrollable,
        pan_untouched(v.gesture_update(x, y)) && !v.gesture_update(x, y).scrollable,
        pan_untouched(v.gesture_end()) && !v.gesture_end().scrollable,
        pan_untouched(v.rendered()) && !v.rendered().scrollable,
        pan_untouched(v.with_entries(entries)) && !v.with_entries(entries).scrollable,
{
}

/// The retention sweep removes exactly the entries whose object asks not
/// to be kept: every survivor is kept, every kept entry survives, and the
/// push decomposition shows the survivors keep their relative order.
pub proof fn lemma_sweep_exact<D: Draggable>(s: Seq<EntryView<D>>, e: EntryView<D>)
    ensures
        forall|i: int| 0 <= i < sweep_view(s).len() ==> (#[trigger] sweep_view(s)[i]).item.keep(),
        forall|i: int|
            0 <= i < s.len() && (#[trigger] s[i]).item.keep() ==> sweep_view(s).contains(s[i]),
        sweep_view(s.push(e)) == if e.item.keep() {
            sweep_view(s).push(e)
        } else {
            sweep_view(s)
        },
        sweep_view(s).len() <= s.len(),
{
    broadcast use Seq::lemma_filter_pred;
    broadcast use Seq::lemma_filter_contains;
    broadcast use Seq::lemma_filter_len;

    reveal(Seq::filter);
    assert(s.push(e).drop_last() =~= s);
    assert(s.push(e).last() == e);
}

} // verus!
