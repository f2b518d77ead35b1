use vstd::prelude::*;

verus! {

/// Why an operation on a type was refused.
#[derive(Clone, Copy, Debug, PartialEq, Eq, Structural)]
pub enum TypeError {
    /// A structural accessor was used on a type of the wrong variant, or with
    /// an index that is out of range.
    PreconditionViolation,
    /// The input has a shape that is not handled yet.
    Unsupported,
}

impl TypeError {
    /// A short message for diagnostics.
    pub fn message(&self) -> (text: &'static str)
        ensures
            text@ == (match *self {
                TypeError::PreconditionViolation => "invalid use"@,
                TypeError::Unsupported => "not yet implemented"@,
            }),
    {
        match self {
            TypeError::PreconditionViolation => "invalid use",
            TypeError::Unsupported => "not yet implemented",
        }
    }
}

} // verus!
