//! Validity of a message, as its receiver checks it.

use vstd::prelude::*;

verus! {

/// A message that can tell whether it is well formed.
pub trait VhostUserMsgValidator {
    /// What it means for the message to be valid.
    spec fn valid(&self) -> bool;

    /// Whether the message is valid.
    fn is_valid(&self) -> (valid: bool)
        ensures
            valid == self.valid(),
    ;
}

} // verus!
