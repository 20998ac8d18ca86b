//! Registry ordering, promotion, retention sweep and iteration.

use cairodrag::{calculate_limits, rect_contains, sat_add, sat_sub};
use cairodrag::{Draggable, DrawError, Entry, Handle, Registry};
use std::cell::Cell;
use std::rc::Rc;

/// A rectangular object extending `(0, 100, 0, 100)` from its origin, with
/// an externally controllable retention flag.
struct Block {
    id: u32,
    keep: Cell<bool>,
}

impl Block {
    fn new(id: u32) -> Block {
        Block { id, keep: Cell::new(true) }
    }
}

impl Draggable for Block {
    type Ctx = Vec<(u32, i64, i64)>;

    fn draw(&self, context: &mut Vec<(u32, i64, i64)>, x: i64, y: i64) -> Result<(), DrawError> {
        context.push((self.id, x, y));
        Ok(())
    }

    fn get_limits(&self) -> (i64, i64, i64, i64) {
        (0, 100, 0, 100)
    }

    fn contains(&self, x: i64, y: i64) -> bool {
        rect_contains((0, 100, 0, 100), x, y)
    }

    fn can_scroll(&self, x: i64, y: i64) -> bool {
        !self.contains(x, y)
    }

    fn retain(&self) -> bool {
        self.keep.get()
    }
}

fn ids(registry: &Registry<Block>) -> Vec<u32> {
    let mut out = Vec::new();
    let mut it = registry.iter();
    while let Some(entry) = it.next() {
        out.push(entry.handle.borrow().id);
    }
    out
}

#[test]
fn push_keeps_insertion_order() {
    let mut registry: Registry<Block> = Registry::new();
    registry.push(Handle::Owned(Box::new(Block::new(1))), 10, 20);
    registry.push(Handle::Shared(Rc::new(Block::new(2))), 30, 40);
    registry.push(Handle::Owned(Box::new(Block::new(3))), 50, 60);
    assert_eq!(registry.len(), 3);
    assert_eq!(ids(&registry), vec![1, 2, 3]);
    let entry: &Entry<Block> = registry.entry(1);
    assert_eq!((entry.x, entry.y), (30, 40));
}

#[test]
fn promote_moves_entry_to_end() {
    let mut registry: Registry<Block> = Registry::new();
    registry.push(Handle::Owned(Box::new(Block::new(1))), 0, 0);
    registry.push(Handle::Owned(Box::new(Block::new(2))), 0, 0);
    registry.push(Handle::Owned(Box::new(Block::new(3))), 0, 0);
    let new_index = registry.promote(0);
    assert_eq!(new_index, 2);
    assert_eq!(ids(&registry), vec![2, 3, 1]);
    let new_index = registry.promote(2);
    assert_eq!(new_index, 2);
    assert_eq!(ids(&registry), vec![2, 3, 1]);
}

#[test]
fn sweep_retain_removes_exactly_the_unretained() {
    let mut registry: Registry<Block> = Registry::new();
    let doomed = Rc::new(Block::new(2));
    registry.push(Handle::Owned(Box::new(Block::new(1))), 0, 0);
    registry.push(Handle::Shared(doomed.clone()), 0, 0);
    registry.push(Handle::Owned(Box::new(Block::new(3))), 0, 0);
    registry.sweep_retain();
    assert_eq!(ids(&registry), vec![1, 2, 3]);
    doomed.keep.set(false);
    registry.sweep_retain();
    assert_eq!(ids(&registry), vec![1, 3]);
}

#[test]
fn iteration_is_bidirectional() {
    let mut registry: Registry<Block> = Registry::new();
    registry.push(Handle::Owned(Box::new(Block::new(1))), 0, 0);
    registry.push(Handle::Owned(Box::new(Block::new(2))), 0, 0);
    registry.push(Handle::Owned(Box::new(Block::new(3))), 0, 0);
    let mut it = registry.iter();
    assert_eq!(it.next().unwrap().handle.borrow().id, 1);
    assert_eq!(it.next_back().unwrap().handle.borrow().id, 3);
    assert_eq!(it.next().unwrap().handle.borrow().id, 2);
    assert!(it.next().is_none());
    assert!(it.next_back().is_none());
    // Restartable: a fresh walk starts over.
    let mut again = registry.iter();
    assert_eq!(again.next().unwrap().handle.borrow().id, 1);
}

#[test]
fn clamp_follows_the_sequential_tie_break() {
    // Canvas 500 wide, upper magnitude 100: dragging to 550 stores 400.
    assert_eq!(calculate_limits(0, 100, 500, false, 550), 400);
    // A scrollable canvas never clamps.
    assert_eq!(calculate_limits(0, 100, 500, true, 550), 550);
    // Lower bound.
    assert_eq!(calculate_limits(25, 100, 500, false, 10), 25);
    // In range: untouched.
    assert_eq!(calculate_limits(25, 100, 500, false, 300), 300);
    // Object larger than the canvas: the sequential tests decide. Below the
    // lower bound the lower bound wins even though it is above the upper.
    assert_eq!(calculate_limits(50, 200, 100, false, 40), 50);
    // At or above the lower bound, the upper bound is applied.
    assert_eq!(calculate_limits(50, 200, 100, false, 60), -100);
}

#[test]
fn saturating_arithmetic_pins_to_the_range_ends() {
    assert_eq!(sat_add(i64::MAX, 1), i64::MAX);
    assert_eq!(sat_add(i64::MIN, -1), i64::MIN);
    assert_eq!(sat_add(40, 2), 42);
    assert_eq!(sat_sub(i64::MIN, 1), i64::MIN);
    assert_eq!(sat_sub(i64::MAX, -1), i64::MAX);
    assert_eq!(sat_sub(40, 2), 38);
}
