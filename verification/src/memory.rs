//! The flat, byte-addressable address space the processor works on.
//!
//! The model of an address space is a `Seq<u8>` of [`MEMORY_SIZE`] bytes,
//! indexed by address. 16-bit values are stored little-endian: the low byte
//! at the given address, the high byte at the address after it.

use vstd::prelude::*;

verus! {

/// Number of addressable bytes: every `u16` is a valid address.
pub const MEMORY_SIZE: usize = 0x10000;

/// The 16-bit value whose low byte is `low` and whose high byte is `high`.
pub open spec fn spec_word(low: u8, high: u8) -> u16 {
    (high * 256 + low) as u16
}

/// The 16-bit value whose low byte is `low` and whose high byte is `high`.
#[verifier::when_used_as_spec(spec_word)]
pub fn word(low: u8, high: u8) -> (value: u16)
    ensures
        value == spec_word(low, high),
{
    let lo: u16 = low as u16;
    let hi: u16 = high as u16;
    assert((hi << 8) | lo == hi * 256 + lo) by (bit_vector)
        requires
            hi < 256,
            lo < 256,
    ;
    (hi << 8) | lo
}

/// The low byte of a 16-bit value.
pub open spec fn low_byte(value: u16) -> u8 {
    (value % 256) as u8
}

/// The high byte of a 16-bit value.
pub open spec fn high_byte(value: u16) -> u8 {
    (value / 256) as u8
}

/// The address after `addr`; the address after `0xFFFF` is `0x0000`.
pub open spec fn next_address(addr: u16) -> u16 {
    ((addr + 1) % 0x10000) as u16
}

/// The little-endian 16-bit value stored at `pos` and the address after it.
pub open spec fn read_u16(memory: Seq<u8>, pos: u16) -> u16 {
    word(memory[pos as int], memory[next_address(pos) as int])
}

/// `memory` after `data` has been stored little-endian at `pos` and the
/// address after it.
pub open spec fn write_u16(memory: Seq<u8>, pos: u16, data: u16) -> Seq<u8> {
    memory.update(pos as int, low_byte(data)).update(next_address(pos) as int, high_byte(data))
}

/// `memory` after the bytes of `data` have been copied to the addresses from
/// `base` on.
pub open spec fn place(memory: Seq<u8>, base: u16, data: Seq<u8>) -> Seq<u8> {
    Seq::new(
        memory.len(),
        |addr: int|
            if base <= addr < base + data.len() {
                data[addr - base]
            } else {
                memory[addr]
            },
    )
}

/// Endianness round trip: a 16-bit value that was written is read back
/// unchanged, its low byte lies at `pos` and its high byte at the address
/// after `pos`, which is the higher one unless `pos` is the last address. No
/// other byte changes.
pub proof fn lemma_write_read_u16(memory: Seq<u8>, pos: u16, data: u16)
    requires
        memory.len() == MEMORY_SIZE,
    ensures
        read_u16(write_u16(memory, pos, data), pos) == data,
        write_u16(memory, pos, data)[pos as int] == data % 256,
        write_u16(memory, pos, data)[next_address(pos) as int] == data / 256,
        pos < 0xFFFF ==> next_address(pos) == pos + 1,
        write_u16(memory, pos, data).len() == MEMORY_SIZE,
        forall|addr: int|
            0 <= addr < MEMORY_SIZE && addr != pos && addr != next_address(pos) ==> write_u16(
                memory,
                pos,
                data,
            )[addr] == memory[addr],
{
}

/// A byte-addressable address space that covers `0x0000..=0xFFFF`.
pub struct Memory {
    bytes: [u8; 0x10000],
}

impl View for Memory {
    type V = Seq<u8>;

    /// The contents, indexed by address.
    closed spec fn view(&self) -> Seq<u8> {
        self.bytes@
    }
}

impl Memory {
    /// Every address space holds exactly [`MEMORY_SIZE`] bytes.
    pub proof fn lemma_len(&self)
        ensures
            self@.len() == MEMORY_SIZE,
    {
    }

    /// An address space in which every byte is zero.
    pub fn new() -> (m: Memory)
        ensures
            m@ == Seq::new(MEMORY_SIZE as nat, |addr: int| 0u8),
    {
        Memory { bytes: [0u8; 0x10000] }
    }

    /// The byte stored at `addr`.
    pub fn read(&self, addr: u16) -> (value: u8)
        ensures
            value == self@[addr as int],
    {
        self.bytes[addr as usize]
    }

    /// Stores `data` at `addr` and leaves every other byte as it was.
    pub fn write(&mut self, addr: u16, data: u8)
        ensures
            final(self)@ == old(self)@.update(addr as int, data),
            final(self)@.len() == MEMORY_SIZE,
    {
        self.bytes[addr as usize] = data;
    }

    /// Copies `data` to the addresses from `base` on and leaves every other
    /// byte as it was.
    pub fn write_bytes(&mut self, base: u16, data: &Vec<u8>)
        requires
            base + data@.len() <= MEMORY_SIZE,
        ensures
            final(self)@ == place(old(self)@, base, data@),
            final(self)@.len() == MEMORY_SIZE,
    {
        let ghost before = self@;
        let mut i: usize = 0;
        while i < data.len()
            invariant
                i <= data@.len(),
                base + data@.len() <= MEMORY_SIZE,
                before.len() == MEMORY_SIZE,
                self@ == place(before, base, data@.take(i as int)),
            decreases data@.len() - i,
        {
            self.write((base as usize + i) as u16, data[i]);
            i += 1;
        }
    }
}

} // verus!
