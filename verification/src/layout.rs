//! Little-endian byte images of the hardware-mandated record layouts.

use vstd::prelude::*;

verus! {

/// Byte `k` (little-endian) of a 64-bit word.
pub open spec fn le_byte(x: u64, k: u64) -> u8 {
    ((x >> (8 * k)) & 0xff) as u8
}

/// The eight little-endian bytes of a 64-bit word.
pub open spec fn le_bytes(x: u64) -> Seq<u8> {
    seq![
        le_byte(x, 0),
        le_byte(x, 1),
        le_byte(x, 2),
        le_byte(x, 3),
        le_byte(x, 4),
        le_byte(x, 5),
        le_byte(x, 6),
        le_byte(x, 7),
    ]
}

/// `n` zero bytes.
pub open spec fn zero_bytes(n: nat) -> Seq<u8> {
    Seq::new(n, |_i: int| 0u8)
}

/// Appends the eight little-endian bytes of `x`.
pub fn push_le_u64(bytes: &mut Vec<u8>, x: u64)
    ensures
        final(bytes)@ =~= old(bytes)@ + le_bytes(x),
{
    bytes.push(((x >> 0) & 0xff) as u8);
    bytes.push(((x >> 8) & 0xff) as u8);
    bytes.push(((x >> 16) & 0xff) as u8);
    bytes.push(((x >> 24) & 0xff) as u8);
    bytes.push(((x >> 32) & 0xff) as u8);
    bytes.push(((x >> 40) & 0xff) as u8);
    bytes.push(((x >> 48) & 0xff) as u8);
    bytes.push(((x >> 56) & 0xff) as u8);
}

/// Appends `n` zero bytes.
pub fn push_zero_bytes(bytes: &mut Vec<u8>, n: usize)
    ensures
        final(bytes)@ =~= old(bytes)@ + zero_bytes(n as nat),
{
    let mut i: usize = 0;
    while i < n
        invariant
            i <= n,
            bytes@ =~= old(bytes)@ + zero_bytes(i as nat),
        decreases n - i,
    {
        bytes.push(0);
        i = i + 1;
    }
}

} // verus!
