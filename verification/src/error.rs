//! The error that this library reports.

use vstd::prelude::*;

verus! {

/// What can go wrong while a header is read.
#[derive(Clone, Copy, Debug, PartialEq, Eq, Structural)]
pub enum Error {
    /// The request field holds a value that stands for no request code.
    InvalidMessage,
}

} // verus!
