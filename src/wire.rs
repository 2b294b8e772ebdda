//! Fixed-width integers read from a byte stream in a given byte order.
use vstd::prelude::*;

verus! {

/// The byte order in which multi-byte fields of a stream are written.
#[derive(Clone, Copy, Debug, PartialEq, Eq, Structural)]
pub enum ByteOrder {
    LittleEndian,
    BigEndian,
}

/// The unsigned 16-bit value of the two bytes at `pos`.
pub open spec fn u16_at(b: Seq<u8>, pos: int, order: ByteOrder) -> u16 {
    match order {
        ByteOrder::LittleEndian => (b[pos] as int + 256 * (b[pos + 1] as int)) as u16,
        ByteOrder::BigEndian => (256 * (b[pos] as int) + b[pos + 1] as int) as u16,
    }
}

/// The signed (two's complement) 16-bit value of the two bytes at `pos`.
pub open spec fn i16_at(b: Seq<u8>, pos: int, order: ByteOrder) -> i16 {
    let v = u16_at(b, pos, order) as int;
    if v < 0x8000 {
        v as i16
    } else {
        (v - 0x10000) as i16
    }
}

/// The unsigned 32-bit value of the four bytes at `pos`.
pub open spec fn u32_at(b: Seq<u8>, pos: int, order: ByteOrder) -> u32 {
    match order {
        ByteOrder::LittleEndian => (b[pos] as int + 0x100 * (b[pos + 1] as int) + 0x10000 * (
        b[pos + 2] as int) + 0x1000000 * (b[pos + 3] as int)) as u32,
        ByteOrder::BigEndian => (0x1000000 * (b[pos] as int) + 0x10000 * (b[pos + 1] as int)
            + 0x100 * (b[pos + 2] as int) + b[pos + 3] as int) as u32,
    }
}

/// Reads the unsigned 16-bit field at `pos`.
pub fn read_u16(b: &[u8], pos: usize, order: ByteOrder) -> (r: u16)
    requires
        pos + 2 <= b@.len(),
    ensures
        r == u16_at(b@, pos as int, order),
{
    let b0 = b[pos] as u16;
    let b1 = b[pos + 1] as u16;
    match order {
        ByteOrder::LittleEndian => b0 + 256 * b1,
        ByteOrder::BigEndian => 256 * b0 + b1,
    }
}

/// Reads the signed 16-bit field at `pos`.
pub fn read_i16(b: &[u8], pos: usize, order: ByteOrder) -> (r: i16)
    requires
        pos + 2 <= b@.len(),
    ensures
        r == i16_at(b@, pos as int, order),
{
    let v = read_u16(b, pos, order);
    if v < 0x8000 {
        v as i16
    } else {
        (v as i32 - 0x10000) as i16
    }
}

/// Reads the unsigned 32-bit field at `pos`.
pub fn read_u32(b: &[u8], pos: usize, order: ByteOrder) -> (r: u32)
    requires
        pos + 4 <= b@.len(),
    ensures
        r == u32_at(b@, pos as int, order),
{
    let b0 = b[pos] as u32;
    let b1 = b[pos + 1] as u32;
    let b2 = b[pos + 2] as u32;
    let b3 = b[pos + 3] as u32;
    match order {
        ByteOrder::LittleEndian => b0 + 0x100 * b1 + 0x10000 * b2 + 0x1000000 * b3,
        ByteOrder::BigEndian => 0x1000000 * b0 + 0x10000 * b1 + 0x100 * b2 + b3,
    }
}

} // verus!
