//! Error type for the benchmark engine.

use vstd::prelude::*;

verus! {

/// The two failure kinds of a benchmark run: a failure reported by the
/// underlying storage (carried as its rendered message) and any other,
/// unexpected failure.
#[derive(Debug, Clone)]
pub enum Error {
    /// Simple IO error
    Io(String),
    /// Unexpected error
    Unexpected(String),
}

impl Error {
    /// True exactly on the `Io` variant.
    pub fn is_io(&self) -> (r: bool)
        ensures
            r == (self matches Error::Io(_)),
    {
        match self {
            Error::Io(_) => true,
            Error::Unexpected(_) => false,
        }
    }

    /// The message carried by either variant.
    pub fn message(&self) -> (r: &String)
        ensures
            match self {
                Error::Io(m) => r@ == m@,
                Error::Unexpected(m) => r@ == m@,
            },
    {
        match self {
            Error::Io(m) => m,
            Error::Unexpected(m) => m,
        }
    }
}

} // verus!
