//! Errors handed back by the engine's commands.
use vstd::prelude::*;

verus! {

/// An engine failure, carried as its message.
#[derive(Clone, Debug)]
pub struct AppError(pub String);

impl AppError {
    /// An error with the given message.
    pub fn from_str(v: &str) -> (r: AppError)
        ensures
            r.0@ == v@,
    {
        AppError(String::from_str(v))
    }

    /// The error's message.
    pub fn message(&self) -> (r: String)
        ensures
            r@ == self.0@,
    {
        self.0.clone()
    }
}

/// An error as the presentation layer shows it: its message alone.
#[derive(Clone, Debug)]
pub struct StrError(pub String);

impl From<AppError> for StrError {
    fn from(value: AppError) -> (r: StrError) {
        StrError(value.0)
    }
}

impl vstd::std_specs::convert::FromSpecImpl<AppError> for StrError {
    open spec fn obeys_from_spec() -> bool {
        true
    }

    open spec fn from_spec(v: AppError) -> StrError {
        StrError(v.0)
    }
}

impl StrError {
    /// The error's message.
    pub fn message(&self) -> (r: String)
        ensures
            r@ == self.0@,
    {
        self.0.clone()
    }
}

} // verus!
