use vstd::prelude::*;

verus! {

/// What the functions of this library can fail with.
#[derive(PartialEq, Eq, Structural, Debug, Clone, Copy, Hash)]
pub enum Error {
    /// Two arguments that describe the same text differ in length.
    LengthMismatch,
    /// The text is longer than an array that the function has to build can number.
    AllocationFailure,
}

impl Error {
    /// What the error says.
    pub open spec fn spec_message(self) -> Seq<char> {
        match self {
            Error::LengthMismatch => "the arguments differ in length"@,
            Error::AllocationFailure => "the text is too long for the arrays that go with it"@,
        }
    }

    /// A sentence that says what went wrong.
    pub fn message(&self) -> (s: String)
        ensures
            s@ == self.spec_message(),
    {
        match self {
            Error::LengthMismatch => "the arguments differ in length".to_owned(),
            Error::AllocationFailure => "the text is too long for the arrays that go with it".to_owned(),
        }
    }
}

} // verus!
