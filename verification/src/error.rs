//! The one way in which drawing a chart fails.

use vstd::prelude::*;

verus! {

/// The values of a chart add up to zero, so no slice has a share of it.
#[derive(Clone, Copy, Debug, PartialEq, Eq, Structural)]
pub struct DegenerateInputError {}

impl DegenerateInputError {
    /// The text that describes the failure.
    pub fn message(&self) -> (s: String)
        ensures
            s@ == "sum of values is zero"@,
    {
        "sum of values is zero".to_owned()
    }
}

} // verus!
