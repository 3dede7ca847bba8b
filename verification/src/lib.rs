//! A verified keyed-list reconciler.
//!
//! Given an old sequence of components and a new sequence of values, the
//! library computes the instruction stream — recycle, remove, add the
//! remainder — that turns the old sequence into the new one, recycling a
//! component in place wherever the new value is compatible with it. The scan
//! works from both ends at once, in the four-corner style of virtual-DOM
//! reconcilers.

pub mod component_manager;
pub mod component_state;
pub mod head_tail;
pub mod iterator_manager;
pub mod laws;
pub mod operators;
pub mod reconcilable;
pub mod reconcile;
