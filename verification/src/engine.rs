//! The engine's own error.

use vstd::prelude::*;

verus! {

/// Why the engine could not be made or could not render.
#[derive(Debug, Clone, PartialEq, Eq)]
pub struct EngineError {
    message: String,
}

impl EngineError {
    pub closed spec fn spec_message(&self) -> Seq<char> {
        self.message@
    }

    /// The error with a message that says what went wrong.
    pub fn new(message: String) -> (error: EngineError)
        ensures
            error.spec_message() == message@,
    {
        EngineError { message }
    }

    /// What went wrong.
    pub fn message(&self) -> (message: &str)
        ensures
            message@ == self.spec_message(),
    {
        self.message.as_str()
    }
}

} // verus!
