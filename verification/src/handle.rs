//! The ownership handle under every registry entry.

use std::rc::Rc;
use vstd::prelude::*;

verus! {

/// How a drag area holds an object: owned outright, or shared so the caller
/// keeps a handle of its own to the same object.
pub enum Handle<D> {
    /// The drag area is the sole owner.
    Owned(Box<D>),
    /// Ownership is shared with the caller through a reference count.
    Shared(Rc<D>),
}

impl<D> Handle<D> {
    /// The object the handle leads to, whatever the ownership mode.
    pub open spec fn value(self) -> D {
        match self {
            Handle::Owned(b) => *b,
            Handle::Shared(r) => *r,
        }
    }

    /// Borrows the object the handle leads to.
    pub fn borrow(&self) -> (r: &D)
        ensures
            *r == self.value(),
    {
        match self {
            Handle::Owned(b) => &*b,
            Handle::Shared(r) => &*r,
        }
    }
}

} // verus!
