//! Core of a drag-and-drop canvas for client-drawn objects.
//!
//! The library owns the pointer-interaction semantics of a canvas of
//! draggable objects: an ordered registry of objects and positions,
//! hit-testing, promote-to-top reordering, drag tracking with boundary
//! clamping, optional canvas panning, multi-button click dispatch, and the
//! per-frame retention sweep and render pass. Objects implement the
//! [`Draggable`] trait; a toolkit adapter delivers decoded pointer events
//! and asks the core to render each frame.
//!
//! Coordinates are kept as 64-bit integers. All coordinate arithmetic
//! saturates at the ends of the `i64` range, so every operation of the core
//! is total.

mod area;
mod coord;
mod draggable;
mod handle;
mod lemmas;
mod model;
mod registry;

pub use area::DragArea;
pub use area::MouseButton;
pub use coord::calculate_limits;
pub use coord::clamp_coord;
pub use coord::clip;
pub use coord::max0;
pub use coord::rect_contains;
pub use coord::rect_hit;
pub use coord::sat_add;
pub use coord::sat_sub;
pub use draggable::Draggable;
pub use draggable::DrawError;
pub use draggable::DrawHook;
pub use draggable::NoHook;
pub use handle::Handle;
pub use lemmas::lemma_clamp_within_bounds;
pub use lemmas::lemma_insertion_order;
pub use lemmas::lemma_no_pan_update_without_permission;
pub use lemmas::lemma_pan_disabled_by_blocking_entry;
pub use lemmas::lemma_scroll_location_zero_while_disabled;
pub use lemmas::lemma_sweep_exact;
pub use lemmas::lemma_topmost_hit_is_topmost;
pub use lemmas::lemma_topmost_hit_upto_is_topmost;
pub use lemmas::lemma_update_keeps_dragged_in_bounds;
pub use lemmas::pan_untouched;
pub use model::AreaView;
pub use model::DragView;
pub use registry::sweep_view;
pub use registry::EntriesIter;
pub use registry::Entry;
pub use registry::EntryView;
pub use registry::Registry;
