//! The flag bits of a header.

use vstd::prelude::*;

verus! {

/// The bit that marks protocol version 1. Every header that this library
/// builds carries it.
pub const VERSION_BIT: u32 = 0x1;

/// The bit that marks a message as a reply.
pub const REPLY_BIT: u32 = 0x4;

/// The flags that a caller may choose for a header.
#[allow(non_camel_case_types)]
#[derive(Clone, Copy, Debug, PartialEq, Eq, Structural)]
pub enum VhostUserGpuHeaderFlag {
    /// Mark message as reply.
    REPLY,
}

impl VhostUserGpuHeaderFlag {
    /// The bit of a flag.
    pub open spec fn mask(self) -> u32 {
        match self {
            VhostUserGpuHeaderFlag::REPLY => REPLY_BIT,
        }
    }

    /// The bits of all flags together.
    pub open spec fn all_masks() -> u32 {
        REPLY_BIT
    }

    /// The bit of `self`.
    pub fn bits(self) -> (bits: u32)
        ensures
            bits == self.mask(),
    {
        match self {
            VhostUserGpuHeaderFlag::REPLY => REPLY_BIT,
        }
    }

    /// The bits of all flags together.
    pub fn all_bits() -> (bits: u32)
        ensures
            bits == Self::all_masks(),
    {
        REPLY_BIT
    }
}

} // verus!
