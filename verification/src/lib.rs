//! Layout and drag-interaction logic for one row of a tree view.
//!
//! The crate decides, for a single tree node per frame, how the row's
//! expand/collapse affordance (the "closer"), an optional icon and the
//! caller-supplied label are reserved and positioned under four layout
//! policies; it classifies where a drop would land inside a candidate
//! row; and it tracks the pointer-to-row offset of a drag gesture.
//! All geometry is computed over integer layout units.  Painting,
//! pointer input and the host toolkit's persistent store are the
//! caller's business: the functions here map plain values to plain
//! values and are verified.

pub mod drag;
pub mod drop_quarter;
pub mod geometry;
pub mod row_layout;
