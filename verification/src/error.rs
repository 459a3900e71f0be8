use vstd::prelude::*;

verus! {

/// The one way a contract value can be refused: its text is blank.
#[derive(Clone, Copy, Debug, PartialEq, Eq, Structural)]
pub enum Error {
    EmptyValue,
}

impl Error {
    /// The human-readable description of the error.
    pub fn message(&self) -> (text: &'static str)
        ensures
            text@ == "orchestrator judge contract value is empty"@,
    {
        "orchestrator judge contract value is empty"
    }
}

} // verus!
