//! The errors that the library reports.

use vstd::prelude::*;

verus! {

/// Why an operation was refused or failed.
#[derive(Debug, Copy, Clone, Eq, PartialEq, Hash)]
pub enum Error {
    /// A priority, or a pair of priority and policy, breaks the range rules.
    /// Found before anything is handed to the operating system.
    Priority(&'static str),
    /// The operating system returned the given nonzero status.
    OS(i32),
    /// A number that came from the operating system stands for nothing known.
    Ffi(&'static str),
}

} // verus!
