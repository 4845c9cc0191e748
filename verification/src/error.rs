//! Errors surfaced to callers.

use vstd::prelude::*;

verus! {

/// Construction of an instance fails only when the connection to the
/// display server cannot be opened; the attempted server name is carried
/// along for reporting.
pub enum Error {
    OpenDisplay(String),
}

impl Error {
    /// The display name whose connection attempt failed.
    pub fn display_name(&self) -> (r: &str)
        ensures
            self matches Error::OpenDisplay(n) && r@ == n@,
    {
        match self {
            Error::OpenDisplay(n) => n.as_str(),
        }
    }
}

} // verus!
