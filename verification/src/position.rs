//! The record compaction hands back for every element that was occupied:
//! where the element stood before and where it stands now.

use vstd::prelude::*;

verus! {

/// Where an element stood before compaction (`prev_idx`) and where it was
/// placed by it (`new_idx`).
#[derive(Clone, Copy, Debug, PartialEq, Eq, Structural, PartialOrd, Ord)]
pub struct Position {
    /// The index of the element before compaction.
    pub prev_idx: usize,
    /// The index of the element after compaction.
    pub new_idx: usize,
}

impl Position {
    /// Whether compaction moved the element to a different index.
    pub fn changed(&self) -> (r: bool)
        ensures
            r == (self.prev_idx != self.new_idx),
    {
        self.prev_idx != self.new_idx
    }
}

} // verus!
