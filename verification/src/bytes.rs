//! Four-byte encodings of a `u32`, in either byte order.

use vm_memory::ByteValued;
use vstd::prelude::*;

verus! {

/// The order in which the bytes of an integer follow one another.
#[derive(Clone, Copy, Debug, PartialEq, Eq, Structural)]
pub enum ByteOrder {
    /// The least significant byte comes first.
    LittleEndian,
    /// The most significant byte comes first.
    BigEndian,
}

/// The byte of `value` with weight `256^index`, for `index` from 0 to 3.
pub open spec fn byte_of(value: u32, index: nat) -> u8 {
    if index == 0 {
        (value % 0x100) as u8
    } else if index == 1 {
        (value / 0x100 % 0x100) as u8
    } else if index == 2 {
        (value / 0x1_0000 % 0x100) as u8
    } else {
        (value / 0x100_0000 % 0x100) as u8
    }
}

/// The four bytes that stand for `value` in the given order.
pub open spec fn u32_bytes(value: u32, order: ByteOrder) -> Seq<u8> {
    match order {
        ByteOrder::LittleEndian => seq![
            byte_of(value, 0),
            byte_of(value, 1),
            byte_of(value, 2),
            byte_of(value, 3),
        ],
        ByteOrder::BigEndian => seq![
            byte_of(value, 3),
            byte_of(value, 2),
            byte_of(value, 1),
            byte_of(value, 0),
        ],
    }
}

/// The integer that the first four bytes of `bytes` stand for in the given
/// order.
pub open spec fn u32_of_bytes(bytes: Seq<u8>, order: ByteOrder) -> u32
    recommends
        bytes.len() >= 4,
{
    match order {
        ByteOrder::LittleEndian => (bytes[0] + 0x100 * bytes[1] + 0x1_0000 * bytes[2] + 0x100_0000
            * bytes[3]) as u32,
        ByteOrder::BigEndian => (bytes[3] + 0x100 * bytes[2] + 0x1_0000 * bytes[1] + 0x100_0000
            * bytes[0]) as u32,
    }
}

/// Reading the bytes of an integer gives the integer back.
pub proof fn lemma_u32_of_bytes_after_u32_bytes(value: u32, order: ByteOrder)
    ensures
        u32_bytes(value, order).len() == 4,
        u32_of_bytes(u32_bytes(value, order), order) == value,
{
}

/// Writing the integer that four bytes stand for gives the bytes back.
pub proof fn lemma_u32_bytes_after_u32_of_bytes(bytes: Seq<u8>, order: ByteOrder)
    requires
        bytes.len() == 4,
    ensures
        u32_bytes(u32_of_bytes(bytes, order), order) == bytes,
{
    let value = u32_of_bytes(bytes, order);
    let (d0, d1, d2, d3): (int, int, int, int) = match order {
        ByteOrder::LittleEndian => (
            bytes[0] as int,
            bytes[1] as int,
            bytes[2] as int,
            bytes[3] as int,
        ),
        ByteOrder::BigEndian => (
            bytes[3] as int,
            bytes[2] as int,
            bytes[1] as int,
            bytes[0] as int,
        ),
    };
    assert(value == d0 + 0x100 * d1 + 0x1_0000 * d2 + 0x100_0000 * d3);
    assert(byte_of(value, 0) == d0);
    assert(byte_of(value, 1) == d1);
    assert(byte_of(value, 2) == d2);
    assert(byte_of(value, 3) == d3);
    assert(u32_bytes(value, order) =~= bytes);
}

/// Shifting and masking picks the same bytes as dividing and taking the
/// remainder.
proof fn lemma_shifted_bytes(value: u32)
    by (bit_vector)
    ensures
        value & 0xff == value % 0x100,
        (value >> 8) & 0xff == value / 0x100 % 0x100,
        (value >> 16) & 0xff == value / 0x1_0000 % 0x100,
        (value >> 24) & 0xff == value / 0x100_0000 % 0x100,
{
}

/// Writes `value` as four bytes in the given order.
pub fn u32_to_bytes(value: u32, order: ByteOrder) -> (bytes: [u8; 4])
    ensures
        bytes@ == u32_bytes(value, order),
{
    proof {
        lemma_shifted_bytes(value);
    }
    let b0: u8 = (value & 0xff) as u8;
    let b1: u8 = ((value >> 8) & 0xff) as u8;
    let b2: u8 = ((value >> 16) & 0xff) as u8;
    let b3: u8 = ((value >> 24) & 0xff) as u8;
    let bytes: [u8; 4] = match order {
        ByteOrder::LittleEndian => [b0, b1, b2, b3],
        ByteOrder::BigEndian => [b3, b2, b1, b0],
    };
    assert(bytes@ =~= u32_bytes(value, order));
    bytes
}

/// Joining four bytes by shifts gives the sum of the bytes by their weights.
proof fn lemma_joined_bytes(d0: u8, d1: u8, d2: u8, d3: u8)
    by (bit_vector)
    ensures
        (d0 as u32) | ((d1 as u32) << 8) | ((d2 as u32) << 16) | ((d3 as u32) << 24) == d0
            + 0x100 * d1 + 0x1_0000 * d2 + 0x100_0000 * d3,
{
}

/// Reads four bytes in the given order.
pub fn u32_from_bytes(bytes: [u8; 4], order: ByteOrder) -> (value: u32)
    ensures
        value == u32_of_bytes(bytes@, order),
{
    let (d0, d1, d2, d3): (u8, u8, u8, u8) = match order {
        ByteOrder::LittleEndian => (bytes[0], bytes[1], bytes[2], bytes[3]),
        ByteOrder::BigEndian => (bytes[3], bytes[2], bytes[1], bytes[0]),
    };
    proof {
        lemma_joined_bytes(d0, d1, d2, d3);
    }
    (d0 as u32) | ((d1 as u32) << 8) | ((d2 as u32) << 16) | ((d3 as u32) << 24)
}

/// The byte order of the machine that runs this code, told from the memory of
/// its integer 1 by `order_of_one`; which order that is, no contract can say.
pub(crate) fn native_order() -> ByteOrder {
    let one = memory_of_u32(1);
    order_of_one(one.as_slice()).unwrap()
}

/// The memory of a `u32`, as `vm_memory::ByteValued::as_slice` shows it.
///
/// Trusted: the slice is the integer's own four bytes as they lie in memory,
/// so it is one of the two encodings of `value`. Which of the two it is
/// depends on the machine, and the contract leaves it open.
#[verifier::external_body]
fn memory_of_u32(value: u32) -> (bytes: Vec<u8>)
    ensures
        bytes@ == u32_bytes(value, ByteOrder::LittleEndian) || bytes@ == u32_bytes(
            value,
            ByteOrder::BigEndian,
        ),
{
    ByteValued::as_slice(&value).to_vec()
}

/// The byte order in which `memory` holds the integer 1, where it holds it in
/// one: the little-endian order for the bytes 1, 0, 0, 0, the big-endian
/// order for the bytes 0, 0, 0, 1, and no order for anything else.
pub open spec fn order_holding_one(memory: Seq<u8>) -> Option<ByteOrder> {
    if memory == u32_bytes(1, ByteOrder::LittleEndian) {
        Some(ByteOrder::LittleEndian)
    } else if memory == u32_bytes(1, ByteOrder::BigEndian) {
        Some(ByteOrder::BigEndian)
    } else {
        None
    }
}

/// The two encodings of the integer 1, byte by byte.
pub proof fn lemma_bytes_of_one()
    ensures
        u32_bytes(1, ByteOrder::LittleEndian) == seq![1u8, 0u8, 0u8, 0u8],
        u32_bytes(1, ByteOrder::BigEndian) == seq![0u8, 0u8, 0u8, 1u8],
{
    assert(u32_bytes(1, ByteOrder::LittleEndian) =~= seq![1u8, 0u8, 0u8, 0u8]);
    assert(u32_bytes(1, ByteOrder::BigEndian) =~= seq![0u8, 0u8, 0u8, 1u8]);
}

/// Tells the byte order of a machine from the memory of its integer 1.
/// `None` exactly when `memory` is neither encoding of 1.
pub fn order_of_one(memory: &[u8]) -> (order: Option<ByteOrder>)
    ensures
        order == order_holding_one(memory@),
        order == Some(ByteOrder::LittleEndian) <==> memory@ == u32_bytes(
            1,
            ByteOrder::LittleEndian,
        ),
        order == Some(ByteOrder::BigEndian) <==> memory@ == u32_bytes(1, ByteOrder::BigEndian),
{
    proof {
        lemma_bytes_of_one();
    }
    if memory.len() != 4 {
        return None;
    }
    if memory[0] == 1 && memory[1] == 0 && memory[2] == 0 && memory[3] == 0 {
        assert(memory@ =~= seq![1u8, 0u8, 0u8, 0u8]);
        Some(ByteOrder::LittleEndian)
    } else if memory[0] == 0 && memory[1] == 0 && memory[2] == 0 && memory[3] == 1 {
        assert(memory@ =~= seq![0u8, 0u8, 0u8, 1u8]);
        Some(ByteOrder::BigEndian)
    } else {
        None
    }
}

} // verus!
