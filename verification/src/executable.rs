use vstd::prelude::*;

verus! {

/// A command that can be run to completion.
pub trait Executable {
    /// What a failed run reports.
    type Error;

    /// Runs the command once.
    fn execute(&self) -> Result<(), Self::Error>;
}

} // verus!
