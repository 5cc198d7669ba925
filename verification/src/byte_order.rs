//! Integers whose bytes lie in memory in network order.
use vstd::prelude::*;

verus! {

/// The number with the four bytes of `x` in reverse order.
pub open spec fn reversed(x: u32) -> u32 {
    ((x % 0x100) * 0x100_0000 + (x / 0x100 % 0x100) * 0x1_0000 + (x / 0x1_0000 % 0x100) * 0x100 + x
        / 0x100_0000) as u32
}

/// The number that `x` stands for when its bytes in memory are read from the
/// most significant one on.
pub open spec fn host_order(x: u32) -> u32 {
    match vstd::endian::endianness() {
        vstd::endian::Endian::Big => x,
        vstd::endian::Endian::Little => reversed(x),
    }
}

/// `u32::from_be` converts from big endian to the order of the machine. It is
/// claimed to keep the number on a big-endian machine and to reverse its bytes on
/// a little-endian one.
pub assume_specification[ u32::from_be ](x: u32) -> (res: u32)
    ensures
        res == host_order(x),
;

} // verus!
