use vstd::prelude::*;

verus! {

/// Why a key press could not be turned into bytes.
#[derive(Debug, Clone, Copy, PartialEq, Eq, Structural)]
pub enum XError {
    /// The composition lookup reported a negative length.
    Unknown,
    /// The composed text did not fit the fixed composition buffer.
    BufferOverflow,
}

impl XError {
    /// A human-readable description of the error.
    pub fn message(&self) -> (r: &'static str)
        ensures
            *self is Unknown ==> r@ == "An unknown error occurred"@,
            *self is BufferOverflow ==> r@ == "Buffer overflow occurred"@,
    {
        match self {
            XError::Unknown => "An unknown error occurred",
            XError::BufferOverflow => "Buffer overflow occurred",
        }
    }
}

} // verus!
