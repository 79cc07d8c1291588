//! Conditions that guard compare-and-swap and compare-and-delete requests.

use vstd::prelude::*;

verus! {

/// The conditions a key must meet for a conditional write or delete to go through.
pub struct ComparisonConditions<'a> {
    /// The modification index the key must currently have.
    pub modified_index: Option<u64>,
    /// The value the key must currently have.
    pub value: Option<&'a str>,
}

impl<'a> ComparisonConditions<'a> {
    /// Whether no condition is set at all.
    pub fn is_empty(&self) -> (empty: bool)
        ensures
            empty == (self.modified_index is None && self.value is None),
    {
        self.modified_index.is_none() && self.value.is_none()
    }
}

} // verus!
