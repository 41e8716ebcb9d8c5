//! Register arithmetic. Sums on 8-bit registers wrap modulo 2^8, sums on the
//! 16-bit program counter and on addresses wrap modulo 2^16; nothing traps.

use vstd::prelude::*;

verus! {

/// `value` reduced modulo 2^8.
pub open spec fn wrap_u8(value: int) -> u8 {
    (value % 0x100) as u8
}

/// `value` reduced modulo 2^16.
pub open spec fn wrap_u16(value: int) -> u16 {
    (value % 0x10000) as u16
}

/// The wrapping sum of two bytes is their sum modulo 2^8.
pub proof fn lemma_wrapping_add_u8(a: u8, b: u8)
    ensures
        a.wrapping_add(b) == wrap_u8(a + b),
{
}

/// The wrapping sum of two 16-bit values is their sum modulo 2^16.
pub proof fn lemma_wrapping_add_u16(a: u16, b: u16)
    ensures
        a.wrapping_add(b) == wrap_u16(a + b),
{
}

} // verus!
