use vstd::prelude::*;

verus! {

/// The error type of the `anyhow` crate.
#[verifier::external_type_specification]
#[verifier::external_body]
pub struct ExAnyhowError(anyhow::Error);

/// Passing a result on at a point where its error, if any, is worth a log
/// line at some level. The methods hand the result back unchanged; the line
/// itself is written by the program, whose logger the library does not hold.
pub trait TraceError: Sized {
    /// Passes the result on, at a point where an error is a warning.
    fn err_warn(self) -> (r: Self)
        ensures
            r == self,
    ;

    /// Passes the result on, at a point where an error is an error.
    fn err_error(self) -> (r: Self)
        ensures
            r == self,
    ;

    /// Passes the result on, at a point where an error is a trace.
    fn err_trace(self) -> (r: Self)
        ensures
            r == self,
    ;
}

impl<T> TraceError for Result<T, anyhow::Error> {
    fn err_warn(self) -> (r: Self) {
        self
    }

    fn err_error(self) -> (r: Self) {
        self
    }

    fn err_trace(self) -> (r: Self) {
        self
    }
}

} // verus!
