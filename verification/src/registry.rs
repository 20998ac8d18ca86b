//! The ordered object registry. Registry order is paint order — the entry at
//! index 0 is painted first, at the bottom — and therefore also z-order for
//! hit-testing: on overlap, the entry with the highest index is topmost.

use crate::draggable::Draggable;
use crate::handle::Handle;
use vstd::prelude::*;

verus! {

/// One registered object and the position of its draw origin on the
/// surface.
pub struct Entry<D> {
    /// The object, under its ownership handle.
    pub handle: Handle<D>,
    /// The x coordinate of the object's draw origin.
    pub x: i64,
    /// The y coordinate of the object's draw origin.
    pub y: i64,
}

/// What an entry holds, mathematically: the object's value and its
/// position, with the ownership mode abstracted away.
pub struct EntryView<D> {
    /// The object.
    pub item: D,
    /// The x coordinate of the object's draw origin.
    pub x: int,
    /// The y coordinate of the object's draw origin.
    pub y: int,
}

impl<D> View for Entry<D> {
    type V = EntryView<D>;

    open spec fn view(&self) -> EntryView<D> {
        EntryView { item: self.handle.value(), x: self.x as int, y: self.y as int }
    }
}

/// The views of a sequence of entries, in order.
pub open spec fn views_of<D>(s: Seq<Entry<D>>) -> Seq<EntryView<D>> {
    s.map_values(|e: Entry<D>| e@)
}

/// What a retention sweep leaves of a sequence of entries: exactly those
/// whose object is to be kept, in their original relative order.
pub open spec fn sweep_view<D: Draggable>(s: Seq<EntryView<D>>) -> Seq<EntryView<D>> {
    s.filter(|e: EntryView<D>| e.item.keep())
}

/// The ordered collection of registered objects and their positions. Its
/// view is the sequence of entry views in registry order.
pub struct Registry<D> {
    entries: Vec<Entry<D>>,
}

impl<D: Draggable> View for Registry<D> {
    type V = Seq<EntryView<D>>;

    closed spec fn view(&self) -> Seq<EntryView<D>> {
        views_of(self.entries@)
    }
}

impl<D: Draggable> Registry<D> {
    /// Makes an empty registry.
    pub fn new() -> (r: Self)
        ensures
            r@ == Seq::<EntryView<D>>::empty(),
    {
        let r = Registry { entries: Vec::new() };
        proof {
            assert(r@ =~= Seq::<EntryView<D>>::empty());
        }
        r
    }

    /// How many entries the registry holds.
    pub fn len(&self) -> (n: usize)
        ensures
            n == self@.len(),
    {
        self.entries.len()
    }

    /// Borrows the entry at `index`.
    pub fn entry(&self, index: usize) -> (r: &Entry<D>)
        requires
            index < self@.len(),
        ensures
            r@ == self@[index as int],
    {
        &self.entries[index]
    }

    /// Appends an entry; the new object starts bottom-most in paint order.
    /// Until a promotion intervenes, registry order is insertion order.
    pub fn push(&mut self, handle: Handle<D>, x: i64, y: i64)
        ensures
            final(self)@ == old(self)@.push(
                EntryView { item: handle.value(), x: x as int, y: y as int },
            ),
    {
        let ghost expected = self@.push(EntryView { item: handle.value(), x: x as int, y: y as int });
        self.entries.push(Entry { handle, x, y });
        proof {
            assert(self@ =~= expected);
        }
    }

    /// Moves the position of the entry at `index`, leaving registry order
    /// untouched: dragging never reorders the registry.
    pub fn set_position(&mut self, index: usize, x: i64, y: i64)
        requires
            index < old(self)@.len(),
        ensures
            final(self)@ == old(self)@.update(
                index as int,
                EntryView { item: old(self)@[index as int].item, x: x as int, y: y as int },
            ),
    {
        let entry = &mut self.entries[index];
        entry.x = x;
        entry.y = y;
        proof {
            assert(self@ =~= old(self)@.update(
                index as int,
                EntryView { item: old(self)@[index as int].item, x: x as int, y: y as int },
            ));
        }
    }

    /// Removes the entry at `index` and re-appends it at the end, making it
    /// topmost, and returns its new index, which is always `len - 1`. The
    /// entries after `index` each shift down by one; those before it stay.
    pub fn promote(&mut self, index: usize) -> (new_index: usize)
        requires
            index < old(self)@.len(),
        ensures
            final(self)@ == old(self)@.remove(index as int).push(old(self)@[index as int]),
            new_index == final(self)@.len() - 1,
            final(self)@.len() == old(self)@.len(),
            final(self)@[new_index as int] == old(self)@[index as int],
            forall|j: int| 0 <= j < index ==> final(self)@[j] == old(self)@[j],
            forall|j: int| index <= j < final(self)@.len() - 1 ==> final(self)@[j] == old(self)@[j + 1],
    {
        let entry = self.entries.remove(index);
        self.entries.push(entry);
        proof {
            assert(self@ =~= old(self)@.remove(index as int).push(old(self)@[index as int]));
        }
        self.entries.len() - 1
    }

    /// Removes exactly the entries whose object answers `retain()` with
    /// false at sweep time, preserving the relative order of the survivors.
    pub fn sweep_retain(&mut self)
        ensures
            final(self)@ == sweep_view(old(self)@),
    {
        let ghost orig = self@;
        let mut kept: Vec<Entry<D>> = Vec::new();
        while self.entries.len() > 0
            invariant
                views_of(self.entries@) == orig.skip(orig.len() - self.entries@.len()),
                views_of(kept@) == sweep_view(orig.take(orig.len() - self.entries@.len())),
                self.entries@.len() <= orig.len(),
            decreases self.entries@.len(),
        {
            let ghost k: int = orig.len() - self.entries@.len();
            let ghost before = self.entries@;
            let entry = self.entries.remove(0);
            proof {
                assert(views_of(before)[0] == orig.skip(k as int)[0]);
                assert(entry@ == orig[k as int]);
                assert forall|i: int|
                    0 <= i < self.entries@.len() implies #[trigger] views_of(self.entries@)[i]
                    == orig.skip(k + 1)[i] by {
                    assert(self.entries@[i] == before[i + 1]);
                    assert(views_of(before)[i + 1] == orig.skip(k as int)[i + 1]);
                }
                assert(views_of(self.entries@) =~= orig.skip(k + 1));
                reveal(Seq::filter);
                assert(orig.take(k + 1).drop_last() =~= orig.take(k as int));
                assert(orig.take(k + 1).last() == orig[k as int]);
            }
            let keep_it = entry.handle.borrow().retain();
            if keep_it {
                let ghost kept_before = kept@;
                kept.push(entry);
                proof {
                    assert(views_of(kept@) =~= views_of(kept_before).push(entry@));
                }
            }
        }
        proof {
            assert(orig.take(orig.len() as int) =~= orig);
        }
        self.entries = kept;
    }
}

/// A lazy, restartable, bidirectional walk over a registry's entries in
/// current registry order: the front end yields them front-to-back, the
/// back end back-to-front, until the two ends meet.
pub struct EntriesIter<'a, D> {
    registry: &'a Registry<D>,
    front: usize,
    back: usize,
}

impl<'a, D: Draggable> EntriesIter<'a, D> {
    /// The entries being walked, as they stood when the walk began.
    pub closed spec fn src(&self) -> Seq<EntryView<D>> {
        self.registry@
    }

    /// The index the front end yields next.
    pub closed spec fn pos(&self) -> int {
        self.front as int
    }

    /// The index just past the one the back end yields next.
    pub closed spec fn end(&self) -> int {
        self.back as int
    }

    /// The two ends stand within the entries, front not past back.
    pub closed spec fn wf(&self) -> bool {
        0 <= self.pos() <= self.end() <= self.src().len()
    }

    /// Yields the next entry from the front, or nothing once the ends have
    /// met.
    pub fn next(&mut self) -> (r: Option<&'a Entry<D>>)
        requires
            old(self).wf(),
        ensures
            final(self).wf(),
            final(self).src() == old(self).src(),
            final(self).end() == old(self).end(),
            old(self).pos() < old(self).end() ==> (r matches Some(e) && e@ == old(self).src()[
                old(self).pos()
            ] && final(self).pos() == old(self).pos() + 1),
            old(self).pos() >= old(self).end() ==> r is None && final(self).pos() == old(
                self,
            ).pos(),
    {
        if self.front >= self.back {
            return None;
        }
        let entry = &self.registry.entries[self.front];
        self.front = self.front + 1;
        Some(entry)
    }

    /// Yields the next entry from the back, or nothing once the ends have
    /// met.
    pub fn next_back(&mut self) -> (r: Option<&'a Entry<D>>)
        requires
            old(self).wf(),
        ensures
            final(self).wf(),
            final(self).src() == old(self).src(),
            final(self).pos() == old(self).pos(),
            old(self).pos() < old(self).end() ==> (r matches Some(e) && e@ == old(self).src()[
                old(self).end() - 1
            ] && final(self).end() == old(self).end() - 1),
            old(self).pos() >= old(self).end() ==> r is None && final(self).end() == old(
                self,
            ).end(),
    {
        if self.back <= self.front {
            return None;
        }
        self.back = self.back - 1;
        Some(&self.registry.entries[self.back])
    }
}

impl<D: Draggable> Registry<D> {
    /// Starts a walk over the entries in current registry order. The walk
    /// borrows the registry; start another to walk again.
    pub fn iter<'a>(&'a self) -> (it: EntriesIter<'a, D>)
        ensures
            it.wf(),
            it.src() == self@,
            it.pos() == 0,
            it.end() == self@.len(),
    {
        EntriesIter { registry: self, front: 0, back: self.entries.len() }
    }
}

} // verus!
