//! The message header: three 32-bit fields, tagged with the set of request
//! codes that it is read against.

use crate::bytes::{
    lemma_u32_bytes_after_u32_of_bytes, lemma_u32_of_bytes_after_u32_bytes, u32_bytes,
    native_order, u32_from_bytes, u32_of_bytes, u32_to_bytes, ByteOrder,
};
use crate::error::Error;
use crate::flags::{VhostUserGpuHeaderFlag, REPLY_BIT, VERSION_BIT};
use crate::request::{
    lemma_gpu_backend_req_known, lemma_wire_is_injective, GpuBackendReq, Req,
    GPU_BACKEND_REQ_FIRST, GPU_BACKEND_REQ_LAST,
};
use crate::validator::VhostUserMsgValidator;
use std::marker::PhantomData;
use vstd::prelude::*;

verus! {

/// The number of bytes that a header takes on the wire.
pub const HEADER_SIZE: usize = 12;

/// What a header is, as a value: its three fields. The tag is no part of it.
pub struct HeaderFields {
    /// The wire value of the request code; it may stand for none.
    pub request: u32,
    /// The flag bits.
    pub flags: u32,
    /// The length in bytes of the payload that follows the header.
    pub size: u32,
}

impl HeaderFields {
    /// Whether the reply bit is set.
    pub open spec fn is_reply(self) -> bool {
        self.flags & REPLY_BIT != 0
    }

    /// These fields with the reply bit set or cleared, and nothing else
    /// changed.
    pub open spec fn with_reply(self, is_reply: bool) -> HeaderFields {
        HeaderFields {
            request: self.request,
            flags: if is_reply {
                self.flags | REPLY_BIT
            } else {
                self.flags & !REPLY_BIT
            },
            size: self.size,
        }
    }

    /// The code that the request field stands for in the set `R`, if it
    /// stands for one.
    pub open spec fn code<R: Req>(self) -> Option<R> {
        R::of_wire(self.request)
    }

    /// The twelve bytes of these fields on the wire: request, flags and size,
    /// four bytes each in the given order, with nothing between them.
    pub open spec fn bytes(self, order: ByteOrder) -> Seq<u8> {
        u32_bytes(self.request, order) + u32_bytes(self.flags, order) + u32_bytes(
            self.size,
            order,
        )
    }

    /// The fields that twelve bytes stand for.
    pub open spec fn of_bytes(bytes: Seq<u8>, order: ByteOrder) -> HeaderFields
        recommends
            bytes.len() == HEADER_SIZE,
    {
        HeaderFields {
            request: u32_of_bytes(bytes.subrange(0, 4), order),
            flags: u32_of_bytes(bytes.subrange(4, 8), order),
            size: u32_of_bytes(bytes.subrange(8, 12), order),
        }
    }
}

/// The flags that `new` stores for the flags that its caller hands in: of the
/// caller's bits only the defined ones, and the version bit in any case.
pub open spec fn stored_flags(flags: u32) -> u32 {
    (flags & REPLY_BIT) | VERSION_BIT
}

/// The header of a message: request code, flags and payload size. `R` is the
/// set of request codes that the request field is read against; it takes no
/// room in the header.
#[derive(Copy, Debug)]
pub struct VhostUserGpuMsgHeader<R: Req> {
    request: u32,
    flags: u32,
    size: u32,
    _r: PhantomData<R>,
}

impl<R: Req> View for VhostUserGpuMsgHeader<R> {
    type V = HeaderFields;

    closed spec fn view(&self) -> HeaderFields {
        HeaderFields { request: self.request, flags: self.flags, size: self.size }
    }
}

impl<R: Req> Clone for VhostUserGpuMsgHeader<R> {
    fn clone(&self) -> (copy: Self)
        ensures
            copy == *self,
    {
        *self
    }
}

impl<R: Req> VhostUserGpuMsgHeader<R> {
    /// The request code of this header, if its request field stands for one.
    pub open spec fn code(&self) -> Option<R> {
        self@.code::<R>()
    }

    /// Whether `self` answers `req`: both hold the same known code, `self` is
    /// a reply and `req` is none.
    pub open spec fn answers(&self, req: &Self) -> bool {
        &&& self.code() is Some
        &&& req.code() is Some
        &&& self.code() == req.code()
        &&& self@.is_reply()
        &&& !req@.is_reply()
    }

    /// Create a header for `request`. Of `flags` only the defined bits are
    /// kept, and the version bit is set whatever `flags` holds.
    pub fn new(request: R, flags: u32, size: u32) -> (header: Self)
        ensures
            header@ == (HeaderFields {
                request: request.wire(),
                flags: stored_flags(flags),
                size: size,
            }),
            header@.flags & VERSION_BIT == VERSION_BIT,
            header@.flags & !(VERSION_BIT | REPLY_BIT) == 0,
            header@.is_reply() <==> flags & REPLY_BIT != 0,
            header.code() == Some(request),
    {
        let fl: u32 = (flags & VhostUserGpuHeaderFlag::all_bits()) | VERSION_BIT;
        proof {
            lemma_stored_flags(flags);
            R::lemma_of_wire_after_wire(request);
        }
        VhostUserGpuMsgHeader { request: request.encode(), flags: fl, size, _r: PhantomData }
    }

    /// Get message type.
    pub fn get_code(&self) -> (result: Result<R, Error>)
        ensures
            match self.code() {
                Some(code) => result == Ok::<R, Error>(code),
                None => result == Err::<R, Error>(Error::InvalidMessage),
            },
    {
        R::decode(self.request)
    }

    /// Check whether it's a reply message.
    pub fn is_reply(&self) -> (reply: bool)
        ensures
            reply == self@.is_reply(),
    {
        (self.flags & VhostUserGpuHeaderFlag::REPLY.bits()) != 0
    }

    /// Mark message as reply, or as no reply.
    pub fn set_reply(&mut self, is_reply: bool)
        ensures
            final(self)@ == old(self)@.with_reply(is_reply),
            final(self)@.is_reply() == is_reply,
            final(self)@.flags & !REPLY_BIT == old(self)@.flags & !REPLY_BIT,
    {
        proof {
            lemma_reply_bit(self.flags, is_reply);
        }
        if is_reply {
            self.flags |= VhostUserGpuHeaderFlag::REPLY.bits();
        } else {
            self.flags &= !VhostUserGpuHeaderFlag::REPLY.bits();
        }
    }

    /// Check whether it's the reply message for the request `req`.
    pub fn is_reply_for(&self, req: &VhostUserGpuMsgHeader<R>) -> (reply: bool)
        ensures
            reply == self.answers(req),
    {
        match (self.get_code(), req.get_code()) {
            (Ok(code1), Ok(code2)) => {
                proof {
                    lemma_wire_is_injective(code1, code2);
                }
                self.is_reply() && !req.is_reply() && code1.encode() == code2.encode()
            },
            _ => false,
        }
    }

    /// The twelve bytes of this header in the given byte order.
    pub fn to_bytes(&self, order: ByteOrder) -> (bytes: [u8; 12])
        ensures
            bytes@ == self@.bytes(order),
    {
        let r = u32_to_bytes(self.request, order);
        let f = u32_to_bytes(self.flags, order);
        let s = u32_to_bytes(self.size, order);
        let bytes: [u8; 12] = [
            r[0], r[1], r[2], r[3],
            f[0], f[1], f[2], f[3],
            s[0], s[1], s[2], s[3],
        ];
        assert(bytes@ =~= self@.bytes(order));
        bytes
    }

    /// The header that `bytes` hold in the given byte order. The bytes are
    /// taken as they are: neither the request field nor the flags are
    /// checked. `None` exactly when `bytes` is not `HEADER_SIZE` long.
    pub fn from_bytes(bytes: &[u8], order: ByteOrder) -> (header: Option<Self>)
        ensures
            header is Some <==> bytes@.len() == HEADER_SIZE,
            header matches Some(h) ==> h@ == HeaderFields::of_bytes(bytes@, order),
    {
        if bytes.len() != HEADER_SIZE {
            return None;
        }
        let r: [u8; 4] = [bytes[0], bytes[1], bytes[2], bytes[3]];
        let f: [u8; 4] = [bytes[4], bytes[5], bytes[6], bytes[7]];
        let s: [u8; 4] = [bytes[8], bytes[9], bytes[10], bytes[11]];
        assert(r@ =~= bytes@.subrange(0, 4));
        assert(f@ =~= bytes@.subrange(4, 8));
        assert(s@ =~= bytes@.subrange(8, 12));
        Some(
            VhostUserGpuMsgHeader {
                request: u32_from_bytes(r, order),
                flags: u32_from_bytes(f, order),
                size: u32_from_bytes(s, order),
                _r: PhantomData,
            },
        )
    }

    /// The twelve bytes of this header in the byte order of the machine.
    pub fn to_ne_bytes(&self) -> (bytes: [u8; 12])
        ensures
            bytes@ == self@.bytes(ByteOrder::LittleEndian) || bytes@ == self@.bytes(
                ByteOrder::BigEndian,
            ),
    {
        self.to_bytes(native_order())
    }

    /// The header that `bytes` hold in the byte order of the machine. `None`
    /// exactly when `bytes` is not `HEADER_SIZE` long.
    pub fn from_ne_bytes(bytes: &[u8]) -> (header: Option<Self>)
        ensures
            header is Some <==> bytes@.len() == HEADER_SIZE,
            header matches Some(h) ==> h@ == HeaderFields::of_bytes(
                bytes@,
                ByteOrder::LittleEndian,
            ) || h@ == HeaderFields::of_bytes(bytes@, ByteOrder::BigEndian),
    {
        Self::from_bytes(bytes, native_order())
    }

    /// Get message size.
    pub fn get_size(&self) -> (size: u32)
        ensures
            size == self@.size,
    {
        self.size
    }

    /// Set message size.
    pub fn set_size(&mut self, size: u32)
        ensures
            final(self)@ == (HeaderFields {
                request: old(self)@.request,
                flags: old(self)@.flags,
                size: size,
            }),
    {
        self.size = size;
    }
}

impl<T: Req> VhostUserMsgValidator for VhostUserGpuMsgHeader<T> {
    /// A header is valid when its request field stands for a code. The flags
    /// and the size have no part in it.
    open spec fn valid(&self) -> bool {
        self.code() is Some
    }

    fn is_valid(&self) -> (valid: bool) {
        self.get_code().is_ok()
    }
}

impl<R: Req> Default for VhostUserGpuMsgHeader<R> {
    /// A header with no request code yet: request 0, which stands for no
    /// code, the version bit alone, and size 0.
    fn default() -> (header: Self)
        ensures
            header@ == (HeaderFields { request: 0, flags: VERSION_BIT, size: 0 }),
            header.code() is None,
    {
        proof {
            lemma_zero_is_no_code::<R>();
        }
        VhostUserGpuMsgHeader { request: 0, flags: VERSION_BIT, size: 0, _r: PhantomData }
    }
}

impl<R: Req> PartialEq for VhostUserGpuMsgHeader<R> {
    fn eq(&self, other: &Self) -> (equal: bool) {
        self.request == other.request && self.flags == other.flags && self.size == other.size
    }
}

impl<R: Req> vstd::std_specs::cmp::PartialEqSpecImpl for VhostUserGpuMsgHeader<R> {
    open spec fn obeys_eq_spec() -> bool {
        true
    }

    /// Two headers are equal when their three fields are.
    open spec fn eq_spec(&self, other: &Self) -> bool {
        self@ == other@
    }
}

/// The request value 0 stands for no code, in any set of codes.
pub proof fn lemma_zero_is_no_code<R: Req>()
    ensures
        R::of_wire(0) is None,
{
    R::lemma_wire_after_of_wire(0);
    match R::of_wire(0) {
        Some(code) => {
            R::lemma_wire_is_not_zero(code);
        },
        None => {},
    }
}

/// A header of the GPU backend channel is valid exactly when its request field
/// holds one of the registered values, whatever its flags and its size.
pub proof fn lemma_gpu_header_valid(header: VhostUserGpuMsgHeader<GpuBackendReq>)
    ensures
        header.valid() <==> GPU_BACKEND_REQ_FIRST <= header@.request <= GPU_BACKEND_REQ_LAST,
{
    lemma_gpu_backend_req_known(header@.request);
}

/// The reply bit of a header is what `set_reply` made it last: a second
/// `set_reply` overrides the first, so the same one twice is the same as
/// once.
pub proof fn lemma_with_reply(fields: HeaderFields, first: bool, second: bool)
    ensures
        fields.with_reply(first).is_reply() == first,
        fields.with_reply(first).with_reply(second) == fields.with_reply(second),
        fields.with_reply(first).with_reply(first) == fields.with_reply(first),
{
    let flags = fields.flags;
    lemma_reply_bit(flags, first);
    assert((flags | 0x4) | 0x4 == flags | 0x4) by (bit_vector);
    assert((flags | 0x4) & !0x4u32 == flags & !0x4u32) by (bit_vector);
    assert((flags & !0x4u32) | 0x4 == flags | 0x4) by (bit_vector);
    assert((flags & !0x4u32) & !0x4u32 == flags & !0x4u32) by (bit_vector);
}

/// Round trip: the fields that are read from the bytes of a header are the
/// header's own, in either byte order.
pub proof fn lemma_of_bytes_after_bytes(fields: HeaderFields, order: ByteOrder)
    ensures
        fields.bytes(order).len() == HEADER_SIZE,
        HeaderFields::of_bytes(fields.bytes(order), order) == fields,
{
    let bytes = fields.bytes(order);
    lemma_u32_of_bytes_after_u32_bytes(fields.request, order);
    lemma_u32_of_bytes_after_u32_bytes(fields.flags, order);
    lemma_u32_of_bytes_after_u32_bytes(fields.size, order);
    assert(bytes.subrange(0, 4) =~= u32_bytes(fields.request, order));
    assert(bytes.subrange(4, 8) =~= u32_bytes(fields.flags, order));
    assert(bytes.subrange(8, 12) =~= u32_bytes(fields.size, order));
}

/// Any twelve bytes are the bytes of the fields that are read from them: no
/// two byte strings stand for the same header.
pub proof fn lemma_bytes_after_of_bytes(bytes: Seq<u8>, order: ByteOrder)
    requires
        bytes.len() == HEADER_SIZE,
    ensures
        HeaderFields::of_bytes(bytes, order).bytes(order) == bytes,
{
    lemma_u32_bytes_after_u32_of_bytes(bytes.subrange(0, 4), order);
    lemma_u32_bytes_after_u32_of_bytes(bytes.subrange(4, 8), order);
    lemma_u32_bytes_after_u32_of_bytes(bytes.subrange(8, 12), order);
    assert(HeaderFields::of_bytes(bytes, order).bytes(order) =~= bytes);
}

/// A header never answers the header that answers it, nor itself: of two
/// headers with one code, the reply bit tells which is the reply.
pub proof fn lemma_answers_is_one_way<R: Req>(
    first: VhostUserGpuMsgHeader<R>,
    second: VhostUserGpuMsgHeader<R>,
)
    ensures
        first.answers(&second) ==> !second.answers(&first),
        !first.answers(&first),
{
}

/// What `stored_flags` keeps and what it drops.
pub proof fn lemma_stored_flags(flags: u32)
    ensures
        stored_flags(flags) & VERSION_BIT == VERSION_BIT,
        stored_flags(flags) & !(VERSION_BIT | REPLY_BIT) == 0,
        stored_flags(flags) & REPLY_BIT == flags & REPLY_BIT,
{
    assert(((flags & 0x4) | 0x1) & 0x1 == 0x1) by (bit_vector);
    assert(((flags & 0x4) | 0x1) & !(0x1u32 | 0x4u32) == 0) by (bit_vector);
    assert(((flags & 0x4) | 0x1) & 0x4 == flags & 0x4) by (bit_vector);
}

/// Setting or clearing the reply bit does that and touches no other bit.
proof fn lemma_reply_bit(flags: u32, is_reply: bool)
    ensures
        is_reply ==> (flags | REPLY_BIT) & REPLY_BIT != 0,
        !is_reply ==> (flags & !REPLY_BIT) & REPLY_BIT == 0,
        (flags | REPLY_BIT) & !REPLY_BIT == flags & !REPLY_BIT,
        (flags & !REPLY_BIT) & !REPLY_BIT == flags & !REPLY_BIT,
{
    assert((flags | 0x4) & 0x4 != 0) by (bit_vector);
    assert((flags & !0x4u32) & 0x4 == 0) by (bit_vector);
    assert((flags | 0x4) & !0x4u32 == flags & !0x4u32) by (bit_vector);
    assert((flags & !0x4u32) & !0x4u32 == flags & !0x4u32) by (bit_vector);
}

} // verus!
