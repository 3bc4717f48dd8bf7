//! Tracking of field-level mutations on nested record types.
//!
//! A caller describes an intended change through a typed setter handle, the
//! change is captured as a tagged event in a flat, fixed-size buffer shared
//! across the whole nesting tree, and the event can later be collected for
//! inspection or replayed onto a real record instance.

pub mod chains;
pub mod observer;
pub mod records;
pub mod setter;
pub mod shape;
