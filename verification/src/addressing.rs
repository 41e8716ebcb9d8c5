//! Addressing modes: the rules by which an instruction's operand address is
//! computed from the bytes that follow the opcode and from the index
//! registers.

use vstd::prelude::*;
use crate::arith::{wrap_u16, wrap_u8};
use crate::memory::{read_u16, word, MEMORY_SIZE};

verus! {

/// The way an instruction finds its operand.
#[allow(non_camel_case_types)]
#[derive(Clone, Copy, Debug, PartialEq, Eq, Structural)]
pub enum AddressingMode {
    /// The operand is the byte after the opcode.
    Immediate,
    /// The byte after the opcode is an address in the zero page.
    ZeroPage,
    /// Zero-page address plus X, wrapped within the zero page.
    ZeroPage_X,
    /// Zero-page address plus Y, wrapped within the zero page.
    ZeroPage_Y,
    /// The two bytes after the opcode are the address, low byte first.
    Absolute,
    /// Absolute address plus X.
    Absolute_X,
    /// Absolute address plus Y.
    Absolute_Y,
    /// The zero-page byte plus X points at the address, within the zero page.
    Indirect_X,
    /// The zero-page byte points at an address, to which Y is added.
    Indirect_Y,
    /// The instruction has no memory operand (implicit or accumulator).
    NoneAddressing,
}

impl AddressingMode {
    /// Number of operand bytes that follow the opcode in this mode.
    pub open spec fn spec_operand_len(&self) -> u8 {
        match self {
            AddressingMode::NoneAddressing => 0,
            AddressingMode::Absolute | AddressingMode::Absolute_X | AddressingMode::Absolute_Y => 2,
            _ => 1,
        }
    }

    /// Number of operand bytes that follow the opcode in this mode.
    #[verifier::when_used_as_spec(spec_operand_len)]
    pub fn operand_len(&self) -> (len: u8)
        ensures
            len == self.spec_operand_len(),
    {
        match self {
            AddressingMode::NoneAddressing => 0,
            AddressingMode::Absolute | AddressingMode::Absolute_X | AddressingMode::Absolute_Y => 2,
            _ => 1,
        }
    }

    /// Whether the mode designates an operand in memory.
    pub open spec fn spec_has_operand(&self) -> bool {
        *self != AddressingMode::NoneAddressing
    }

    /// Whether the mode designates an operand in memory.
    #[verifier::when_used_as_spec(spec_has_operand)]
    pub fn has_operand(&self) -> (yes: bool)
        ensures
            yes == self.spec_has_operand(),
    {
        match self {
            AddressingMode::NoneAddressing => false,
            _ => true,
        }
    }
}

/// The 16-bit value stored little-endian in the zero page at offset `ptr`
/// and at the offset after it, which is 0 after `0xFF`.
pub open spec fn zero_page_word(memory: Seq<u8>, ptr: u8) -> u16 {
    word(memory[ptr as int], memory[wrap_u8(ptr + 1) as int])
}

/// The effective operand address in `mode`, where `pc` is the address of the
/// first operand byte, `x` and `y` are the index registers and `memory` is
/// the address space. It has no meaning for `NoneAddressing`.
pub open spec fn effective_address(
    mode: AddressingMode,
    pc: u16,
    x: u8,
    y: u8,
    memory: Seq<u8>,
) -> u16
    recommends
        mode.has_operand(),
{
    match mode {
        AddressingMode::Immediate => pc,
        AddressingMode::ZeroPage => memory[pc as int] as u16,
        AddressingMode::ZeroPage_X => wrap_u8(memory[pc as int] + x) as u16,
        AddressingMode::ZeroPage_Y => wrap_u8(memory[pc as int] + y) as u16,
        AddressingMode::Absolute => read_u16(memory, pc),
        AddressingMode::Absolute_X => wrap_u16(read_u16(memory, pc) + x),
        AddressingMode::Absolute_Y => wrap_u16(read_u16(memory, pc) + y),
        AddressingMode::Indirect_X => zero_page_word(memory, wrap_u8(memory[pc as int] + x)),
        AddressingMode::Indirect_Y => wrap_u16(zero_page_word(memory, memory[pc as int]) + y),
        AddressingMode::NoneAddressing => pc,
    }
}

/// Indexed zero-page addressing never leaves the zero page: the index is
/// added modulo 256.
pub proof fn lemma_zero_page_indexed_wraps(pc: u16, x: u8, y: u8, memory: Seq<u8>)
    requires
        memory.len() == MEMORY_SIZE,
    ensures
        effective_address(AddressingMode::ZeroPage_X, pc, x, y, memory) == (memory[pc as int] + x)
            % 256,
        effective_address(AddressingMode::ZeroPage_Y, pc, x, y, memory) == (memory[pc as int] + y)
            % 256,
        effective_address(AddressingMode::ZeroPage_X, pc, x, y, memory) < 0x100,
        effective_address(AddressingMode::ZeroPage_Y, pc, x, y, memory) < 0x100,
        memory[pc as int] + x >= 0x100 ==> effective_address(
            AddressingMode::ZeroPage_X,
            pc,
            x,
            y,
            memory,
        ) == memory[pc as int] + x - 0x100,
        memory[pc as int] + y >= 0x100 ==> effective_address(
            AddressingMode::ZeroPage_Y,
            pc,
            x,
            y,
            memory,
        ) == memory[pc as int] + y - 0x100,
{
}

/// Pre-indexed indirect addressing takes both bytes of the address from the
/// zero page: the pointer is the operand byte plus X modulo 256, and the high
/// byte lies at the pointer plus one modulo 256.
pub proof fn lemma_indirect_x_pointer_wraps(pc: u16, x: u8, y: u8, memory: Seq<u8>)
    requires
        memory.len() == MEMORY_SIZE,
    ensures
        ({
            let ptr = (memory[pc as int] + x) % 256;
            effective_address(AddressingMode::Indirect_X, pc, x, y, memory) == memory[ptr] + 256
                * memory[(ptr + 1) % 256]
        }),
{
}

/// Post-indexed indirect addressing takes both bytes of the base address
/// from the zero page, the high byte at the operand byte plus one modulo 256,
/// and adds Y modulo 2^16.
pub proof fn lemma_indirect_y_pointer_wraps(pc: u16, x: u8, y: u8, memory: Seq<u8>)
    requires
        memory.len() == MEMORY_SIZE,
    ensures
        ({
            let base = memory[pc as int] as int;
            effective_address(AddressingMode::Indirect_Y, pc, x, y, memory) == (memory[base] + 256
                * memory[(base + 1) % 256] + y) % 0x10000
        }),
{
}

} // verus!
