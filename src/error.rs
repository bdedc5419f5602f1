//! Failures of native code, as script code sees them once thrown.
use vstd::prelude::*;

verus! {

/// What went wrong in native code, with its message.
#[derive(Debug, PartialEq, Eq)]
pub enum ErrorKind {
    /// A failure of native code with no more specific kind.
    Error(String),
    /// An argument did not have the type that a method asked for.
    TypeError(String),
    /// A method was called on a receiver that holds no instance data.
    ReferenceError(String),
    /// The custom constructor of a class failed.
    ConstructorError(String),
}

/// The result of native code.
pub type DukResult<T> = Result<T, ErrorKind>;

impl ErrorKind {
    /// The message that a thrown error carries.
    pub open spec fn text(self) -> Seq<char> {
        match self {
            ErrorKind::Error(s) => s@,
            ErrorKind::TypeError(s) => s@,
            ErrorKind::ReferenceError(s) => s@,
            ErrorKind::ConstructorError(s) => s@,
        }
    }

    pub fn message(&self) -> (r: String)
        ensures
            r@ == self.text(),
    {
        match self {
            ErrorKind::Error(s) => s.clone(),
            ErrorKind::TypeError(s) => s.clone(),
            ErrorKind::ReferenceError(s) => s.clone(),
            ErrorKind::ConstructorError(s) => s.clone(),
        }
    }

    pub fn is_reference_error(&self) -> (r: bool)
        ensures
            r == (self is ReferenceError),
    {
        match self {
            ErrorKind::ReferenceError(_) => true,
            _ => false,
        }
    }
}

} // verus!
