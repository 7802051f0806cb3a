//! The byte order of a machine's integers.

use vstd::prelude::*;

verus! {

/// In which order a machine keeps the bytes of an integer.
#[derive(Debug, Clone, Copy, PartialEq, Eq, Structural)]
pub enum ByteOrder {
    /// The least significant byte first.
    Little,
    /// The most significant byte first.
    Big,
}

/// The bytes of an integer in `order`, where `le_bytes` are its little-endian
/// bytes. Also the other way round.
pub open spec fn ordered(le_bytes: Seq<u8>, order: ByteOrder) -> Seq<u8> {
    match order {
        ByteOrder::Little => le_bytes,
        ByteOrder::Big => le_bytes.reverse(),
    }
}

/// The bytes of an integer in `order`, where `le_bytes` are its little-endian
/// bytes. Also the other way round.
pub fn in_order(le_bytes: &[u8], order: ByteOrder) -> (bytes: Vec<u8>)
    ensures
        bytes@ == ordered(le_bytes@, order),
{
    let length: usize = le_bytes.len();
    let mut bytes: Vec<u8> = Vec::new();
    let mut i: usize = 0;
    while i < length
        invariant
            length == le_bytes@.len(),
            i <= length,
            bytes@ == ordered(le_bytes@, order).take(i as int),
        decreases length - i,
    {
        let byte: u8 = match order {
            ByteOrder::Little => le_bytes[i],
            ByteOrder::Big => le_bytes[length - 1 - i],
        };
        bytes.push(byte);
        assert(bytes@ == ordered(le_bytes@, order).take(i + 1));
        i = i + 1;
    }
    assert(ordered(le_bytes@, order).take(length as int) == ordered(le_bytes@, order));
    bytes
}

/// Ordering bytes and ordering them again gives them back.
pub proof fn law_ordering_undoes_itself(bytes: Seq<u8>, order: ByteOrder)
    ensures
        ordered(ordered(bytes, order), order) == bytes,
        ordered(bytes, order).len() == bytes.len(),
{
    assert(bytes.reverse().reverse() == bytes);
}

} // verus!
