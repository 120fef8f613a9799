//! Sample error types: an error and an error that wraps it as its cause.

use vstd::prelude::*;

verus! {

/// An error.
#[derive(Copy, Clone, Debug, PartialEq, Eq, Structural)]
pub struct MyError;

/// An error caused by a `MyError`.
#[derive(Copy, Clone, Debug, PartialEq, Eq, Structural)]
pub struct WrappingError(pub MyError);

impl MyError {
    /// What the error says.
    pub fn display(&self) -> (text: &'static str)
        ensures
            text@ == "my error"@,
    {
        "my error"
    }
}

impl WrappingError {
    /// What the error says.
    pub fn display(&self) -> (text: &'static str)
        ensures
            text@ == "my wrapping error"@,
    {
        "my wrapping error"
    }

    /// The error that caused this one.
    pub fn cause(&self) -> (cause: MyError)
        ensures
            cause == self.0,
    {
        self.0
    }
}

/// A function that always fails, with a wrapping error.
pub fn bad_function() -> (result: Result<(), WrappingError>)
    ensures
        result == Err::<(), WrappingError>(WrappingError(MyError)),
{
    Err(WrappingError(MyError))
}

} // verus!
