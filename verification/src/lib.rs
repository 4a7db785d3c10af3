//! A sparse, index-addressable dynamic sequence: an array keyed by
//! non-negative position where any slot may be empty or occupied. Insertion
//! grows the backing storage on demand, lookup and removal of absent indices
//! report absence rather than an error, and an explicit compaction packs the
//! occupied elements to the front while reporting where each one moved.

pub mod laws;
pub mod occupancy;
pub mod position;
pub mod store;

pub use position::Position;
pub use store::ResizingVec;
