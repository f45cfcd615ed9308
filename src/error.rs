use vstd::prelude::*;

verus! {

/// Failure of an operation on the native filtering engine.
#[derive(Debug, Clone, Copy, PartialEq, Eq, Structural)]
pub enum Error {
    /// A native allocation handed back a null handle: the engine was out of
    /// memory or, for a filter, did not know the requested filter type.
    AllocationFailure,
    /// A native operation returned the given negative status code.
    NativeOperationError(i32),
}

/// What a native status code means: zero or more is success, a negative
/// value is an error that carries the code.
pub open spec fn status_result(status: i32) -> Result<(), Error> {
    if status < 0 {
        Err(Error::NativeOperationError(status))
    } else {
        Ok(())
    }
}

impl Error {
    /// Translates a native status code into a result.
    pub fn check_status(status: i32) -> (r: Result<(), Error>)
        ensures
            r == status_result(status),
    {
        if status < 0 {
            Err(Error::NativeOperationError(status))
        } else {
            Ok(())
        }
    }

    /// The native code that an error carries, if any.
    pub fn code(&self) -> (r: Option<i32>)
        ensures
            r == match *self {
                Error::AllocationFailure => None,
                Error::NativeOperationError(c) => Some(c),
            },
    {
        match *self {
            Error::AllocationFailure => None,
            Error::NativeOperationError(c) => Some(c),
        }
    }
}

} // verus!
