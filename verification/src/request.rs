//! Request codes: the closed set of message kinds of a channel, and the
//! partial mapping between a code and its 32-bit wire value.

use crate::error::Error;
use vstd::prelude::*;

verus! {

/// A closed set of request codes, each with a wire value of its own.
///
/// `wire` and `of_wire` are the mathematical model of the mapping: `wire` is
/// total, `of_wire` is its partial inverse, and no code has the wire value 0.
/// A type that implements `Req` proves the three lemmas of its mapping.
pub trait Req: Clone + Copy + core::fmt::Debug + PartialEq + Eq + PartialOrd + Ord + Send + Sync {
    /// The wire value of a code.
    spec fn wire(self) -> u32;

    /// The code that a wire value stands for, if it stands for one.
    spec fn of_wire(value: u32) -> Option<Self>;

    /// Every code is found again from its wire value.
    proof fn lemma_of_wire_after_wire(code: Self)
        ensures
            Self::of_wire(code.wire()) == Some(code),
    ;

    /// A value that stands for a code is that code's wire value.
    proof fn lemma_wire_after_of_wire(value: u32)
        ensures
            Self::of_wire(value) matches Some(code) ==> code.wire() == value,
    ;

    /// No code is sent as 0.
    proof fn lemma_wire_is_not_zero(code: Self)
        ensures
            code.wire() != 0,
    ;

    /// The wire value of `self`.
    fn encode(self) -> (value: u32)
        ensures
            value == self.wire(),
    ;

    /// The code that `value` stands for, or `Error::InvalidMessage` where it
    /// stands for none.
    fn decode(value: u32) -> (result: Result<Self, Error>)
        ensures
            match Self::of_wire(value) {
                Some(code) => result == Ok::<Self, Error>(code),
                None => result == Err::<Self, Error>(Error::InvalidMessage),
            },
    ;
}

/// The requests that a GPU backend sends to a GPU frontend.
#[allow(non_camel_case_types)]
#[derive(Clone, Copy, Debug, PartialEq, Eq, PartialOrd, Ord, Structural)]
pub enum GpuBackendReq {
    /// Get the supported protocol features bitmask.
    GET_PROTOCOL_FEATURES,
    /// Enable protocol features using a bitmask.
    SET_PROTOCOL_FEATURES,
    /// Get the preferred display configuration.
    GET_DISPLAY_INFO,
    /// Set or show the cursor position.
    CURSOR_POS,
    /// Set or hide the cursor.
    CURSOR_POS_HIDE,
    /// Set the scanout resolution; a width and height of 0 disable the scanout.
    SCANOUT,
    /// Update the scanout content; the payload holds the graphical bits.
    UPDATE,
    /// Set the scanout configuration and share a DMABUF for its content.
    DMABUF_SCANOUT,
    /// Flush and present the region that was updated through the shared DMABUF.
    DMABUF_UPDATE,
    /// Retrieve the EDID data of a scanout.
    GET_EDID,
    /// As `DMABUF_SCANOUT`, with the DMABUF modifiers appended to the message.
    DMABUF_SCANOUT2,
}

/// The smallest wire value of a `GpuBackendReq`.
pub const GPU_BACKEND_REQ_FIRST: u32 = 1;

/// The largest wire value of a `GpuBackendReq`.
pub const GPU_BACKEND_REQ_LAST: u32 = 11;

impl Req for GpuBackendReq {
    open spec fn wire(self) -> u32 {
        match self {
            GpuBackendReq::GET_PROTOCOL_FEATURES => 1,
            GpuBackendReq::SET_PROTOCOL_FEATURES => 2,
            GpuBackendReq::GET_DISPLAY_INFO => 3,
            GpuBackendReq::CURSOR_POS => 4,
            GpuBackendReq::CURSOR_POS_HIDE => 5,
            GpuBackendReq::SCANOUT => 6,
            GpuBackendReq::UPDATE => 7,
            GpuBackendReq::DMABUF_SCANOUT => 8,
            GpuBackendReq::DMABUF_UPDATE => 9,
            GpuBackendReq::GET_EDID => 10,
            GpuBackendReq::DMABUF_SCANOUT2 => 11,
        }
    }

    open spec fn of_wire(value: u32) -> Option<Self> {
        if value == 1 {
            Some(GpuBackendReq::GET_PROTOCOL_FEATURES)
        } else if value == 2 {
            Some(GpuBackendReq::SET_PROTOCOL_FEATURES)
        } else if value == 3 {
            Some(GpuBackendReq::GET_DISPLAY_INFO)
        } else if value == 4 {
            Some(GpuBackendReq::CURSOR_POS)
        } else if value == 5 {
            Some(GpuBackendReq::CURSOR_POS_HIDE)
        } else if value == 6 {
            Some(GpuBackendReq::SCANOUT)
        } else if value == 7 {
            Some(GpuBackendReq::UPDATE)
        } else if value == 8 {
            Some(GpuBackendReq::DMABUF_SCANOUT)
        } else if value == 9 {
            Some(GpuBackendReq::DMABUF_UPDATE)
        } else if value == 10 {
            Some(GpuBackendReq::GET_EDID)
        } else if value == 11 {
            Some(GpuBackendReq::DMABUF_SCANOUT2)
        } else {
            None
        }
    }

    proof fn lemma_of_wire_after_wire(code: Self) {
    }

    proof fn lemma_wire_after_of_wire(value: u32) {
    }

    proof fn lemma_wire_is_not_zero(code: Self) {
    }

    fn encode(self) -> (value: u32) {
        match self {
            GpuBackendReq::GET_PROTOCOL_FEATURES => 1,
            GpuBackendReq::SET_PROTOCOL_FEATURES => 2,
            GpuBackendReq::GET_DISPLAY_INFO => 3,
            GpuBackendReq::CURSOR_POS => 4,
            GpuBackendReq::CURSOR_POS_HIDE => 5,
            GpuBackendReq::SCANOUT => 6,
            GpuBackendReq::UPDATE => 7,
            GpuBackendReq::DMABUF_SCANOUT => 8,
            GpuBackendReq::DMABUF_UPDATE => 9,
            GpuBackendReq::GET_EDID => 10,
            GpuBackendReq::DMABUF_SCANOUT2 => 11,
        }
    }

    fn decode(value: u32) -> (result: Result<Self, Error>)
        ensures
            result is Ok <==> GPU_BACKEND_REQ_FIRST <= value <= GPU_BACKEND_REQ_LAST,
    {
        match value {
            1 => Ok(GpuBackendReq::GET_PROTOCOL_FEATURES),
            2 => Ok(GpuBackendReq::SET_PROTOCOL_FEATURES),
            3 => Ok(GpuBackendReq::GET_DISPLAY_INFO),
            4 => Ok(GpuBackendReq::CURSOR_POS),
            5 => Ok(GpuBackendReq::CURSOR_POS_HIDE),
            6 => Ok(GpuBackendReq::SCANOUT),
            7 => Ok(GpuBackendReq::UPDATE),
            8 => Ok(GpuBackendReq::DMABUF_SCANOUT),
            9 => Ok(GpuBackendReq::DMABUF_UPDATE),
            10 => Ok(GpuBackendReq::GET_EDID),
            11 => Ok(GpuBackendReq::DMABUF_SCANOUT2),
            _ => Err(Error::InvalidMessage),
        }
    }
}

/// A value stands for a `GpuBackendReq` exactly when it lies between
/// `GPU_BACKEND_REQ_FIRST` and `GPU_BACKEND_REQ_LAST`: the wire values are
/// dense, and every other value is unknown.
pub proof fn lemma_gpu_backend_req_known(value: u32)
    ensures
        GpuBackendReq::of_wire(value) is Some <==> GPU_BACKEND_REQ_FIRST <= value
            <= GPU_BACKEND_REQ_LAST,
{
}

/// Two codes of one set are the same code exactly when their wire values are
/// the same.
pub proof fn lemma_wire_is_injective<R: Req>(a: R, b: R)
    ensures
        a.wire() == b.wire() <==> a == b,
{
    R::lemma_of_wire_after_wire(a);
    R::lemma_of_wire_after_wire(b);
}

} // verus!
