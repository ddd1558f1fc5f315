use vstd::prelude::*;

verus! {

/// The clipboard holds no content, so there is nothing to read.
#[derive(Debug, PartialEq, Eq, Structural)]
pub struct NoDataError {}

impl NoDataError {
    /// A short human-readable description of the condition.
    pub fn description(&self) -> (r: &'static str)
        ensures
            r@ == "no content in this clipboard"@,
    {
        "no content in this clipboard"
    }
}

} // verus!
