use vstd::prelude::*;

verus! {

/// The error of an initialiser that cannot fail. No function of this crate
/// constructs a value of it: every `as_result` carrying it returns `Ok`.
#[derive(Debug)]
pub enum NoError {
    Never,
}

/// Anything a context initialiser may return: a bare value, an `Option`
/// or a `Result`, each viewed as a `Result` with its own error type.
pub trait MaybeResult<T>: Sized {
    type Error;

    /// The `Result` this value stands for.
    spec fn spec_result(self) -> Result<T, Self::Error>;

    /// Turn the value into the `Result` it stands for.
    fn as_result(self) -> (r: Result<T, Self::Error>)
        ensures
            r == self.spec_result(),
    ;
}

impl<T> MaybeResult<T> for T {
    type Error = NoError;

    open spec fn spec_result(self) -> Result<T, NoError> {
        Ok(self)
    }

    fn as_result(self) -> (r: Result<T, NoError>) {
        Ok(self)
    }
}

impl<T> MaybeResult<T> for Option<T> {
    type Error = ();

    open spec fn spec_result(self) -> Result<T, ()> {
        match self {
            Some(v) => Ok(v),
            None => Err(()),
        }
    }

    fn as_result(self) -> (r: Result<T, ()>) {
        match self {
            Some(v) => Ok(v),
            None => Err(()),
        }
    }
}

impl<T, E> MaybeResult<T> for Result<T, E> {
    type Error = E;

    open spec fn spec_result(self) -> Result<T, E> {
        self
    }

    fn as_result(self) -> (r: Result<T, E>) {
        self
    }
}

/// A construction failure, tagged with the stage that failed: the window
/// initialiser runs first, and only if it succeeds does the data
/// initialiser run.
#[derive(Debug)]
pub enum AppError<E1, E2> {
    WindowError(E1),
    DataError(E2),
}

} // verus!
