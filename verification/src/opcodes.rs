//! The opcode table: what each legal opcode byte stands for.
//!
//! The table is plain data. The execution engine looks a fetched byte up
//! here and goes on by the mnemonic and the addressing mode alone; a byte
//! without an entry cannot be decoded.

use vstd::prelude::*;
use crate::addressing::AddressingMode;

verus! {

/// The operation an instruction performs.
#[derive(Clone, Copy, Debug, PartialEq, Eq, Structural)]
pub enum Mnemonic {
    /// Add the operand to the accumulator.
    ADC,
    /// Software break: ends the run.
    BRK,
    /// Increment X.
    INX,
    /// Load the accumulator.
    LDA,
    /// Load X.
    LDX,
    /// Load Y.
    LDY,
    /// Store the accumulator.
    STA,
    /// Store X.
    STX,
    /// Store Y.
    STY,
    /// Transfer the accumulator to X.
    TAX,
}

impl Mnemonic {
    /// Whether the operation reads or writes an operand in memory.
    pub open spec fn spec_takes_operand(&self) -> bool {
        match self {
            Mnemonic::BRK | Mnemonic::INX | Mnemonic::TAX => false,
            _ => true,
        }
    }

    /// Whether the operation reads or writes an operand in memory.
    #[verifier::when_used_as_spec(spec_takes_operand)]
    pub fn takes_operand(&self) -> (yes: bool)
        ensures
            yes == self.spec_takes_operand(),
    {
        match self {
            Mnemonic::BRK | Mnemonic::INX | Mnemonic::TAX => false,
            _ => true,
        }
    }
}

/// One row of the opcode table.
#[derive(Clone, Copy, Debug, PartialEq, Eq, Structural)]
pub struct OpcodeDescriptor {
    /// The operation.
    pub mnemonic: Mnemonic,
    /// How the operand is found.
    pub mode: AddressingMode,
    /// Length of the whole instruction in bytes, opcode included.
    pub length: u8,
    /// Base cost in clock cycles.
    pub cycles: u8,
}

impl OpcodeDescriptor {
    /// The length is the opcode byte plus the operand bytes of the mode.
    pub open spec fn wf(&self) -> bool {
        self.length == 1 + self.mode.operand_len()
    }

    /// An operation on a memory operand has a mode that designates one.
    pub open spec fn executable(&self) -> bool {
        self.mnemonic.takes_operand() ==> self.mode.has_operand()
    }
}

/// The row made of the given parts.
pub open spec fn spec_entry(
    mnemonic: Mnemonic,
    mode: AddressingMode,
    length: u8,
    cycles: u8,
) -> OpcodeDescriptor {
    OpcodeDescriptor { mnemonic, mode, length, cycles }
}

/// The row made of the given parts.
#[verifier::when_used_as_spec(spec_entry)]
pub fn entry(mnemonic: Mnemonic, mode: AddressingMode, length: u8, cycles: u8) -> (d:
    OpcodeDescriptor)
    ensures
        d == spec_entry(mnemonic, mode, length, cycles),
{
    OpcodeDescriptor { mnemonic, mode, length, cycles }
}

/// The opcode table: the row of `opcode`, or `None` for a byte that is no
/// legal opcode.
pub open spec fn descriptor(opcode: u8) -> Option<OpcodeDescriptor> {
    match opcode {
        0x00 => Some(entry(Mnemonic::BRK, AddressingMode::NoneAddressing, 1, 7)),
        0xAA => Some(entry(Mnemonic::TAX, AddressingMode::NoneAddressing, 1, 2)),
        0xE8 => Some(entry(Mnemonic::INX, AddressingMode::NoneAddressing, 1, 2)),
        0xA9 => Some(entry(Mnemonic::LDA, AddressingMode::Immediate, 2, 2)),
        0xA5 => Some(entry(Mnemonic::LDA, AddressingMode::ZeroPage, 2, 3)),
        0xB5 => Some(entry(Mnemonic::LDA, AddressingMode::ZeroPage_X, 2, 4)),
        0xAD => Some(entry(Mnemonic::LDA, AddressingMode::Absolute, 3, 4)),
        0xBD => Some(entry(Mnemonic::LDA, AddressingMode::Absolute_X, 3, 4)),
        0xB9 => Some(entry(Mnemonic::LDA, AddressingMode::Absolute_Y, 3, 4)),
        0xA1 => Some(entry(Mnemonic::LDA, AddressingMode::Indirect_X, 2, 6)),
        0xB1 => Some(entry(Mnemonic::LDA, AddressingMode::Indirect_Y, 2, 5)),
        0xA2 => Some(entry(Mnemonic::LDX, AddressingMode::Immediate, 2, 2)),
        0xA6 => Some(entry(Mnemonic::LDX, AddressingMode::ZeroPage, 2, 3)),
        0xB6 => Some(entry(Mnemonic::LDX, AddressingMode::ZeroPage_Y, 2, 4)),
        0xAE => Some(entry(Mnemonic::LDX, AddressingMode::Absolute, 3, 4)),
        0xBE => Some(entry(Mnemonic::LDX, AddressingMode::Absolute_Y, 3, 4)),
        0xA0 => Some(entry(Mnemonic::LDY, AddressingMode::Immediate, 2, 2)),
        0xA4 => Some(entry(Mnemonic::LDY, AddressingMode::ZeroPage, 2, 3)),
        0xB4 => Some(entry(Mnemonic::LDY, AddressingMode::ZeroPage_X, 2, 4)),
        0xAC => Some(entry(Mnemonic::LDY, AddressingMode::Absolute, 3, 4)),
        0xBC => Some(entry(Mnemonic::LDY, AddressingMode::Absolute_X, 3, 4)),
        0x85 => Some(entry(Mnemonic::STA, AddressingMode::ZeroPage, 2, 3)),
        0x95 => Some(entry(Mnemonic::STA, AddressingMode::ZeroPage_X, 2, 4)),
        0x8D => Some(entry(Mnemonic::STA, AddressingMode::Absolute, 3, 4)),
        0x9D => Some(entry(Mnemonic::STA, AddressingMode::Absolute_X, 3, 5)),
        0x99 => Some(entry(Mnemonic::STA, AddressingMode::Absolute_Y, 3, 5)),
        0x81 => Some(entry(Mnemonic::STA, AddressingMode::Indirect_X, 2, 6)),
        0x91 => Some(entry(Mnemonic::STA, AddressingMode::Indirect_Y, 2, 6)),
        0x86 => Some(entry(Mnemonic::STX, AddressingMode::ZeroPage, 2, 3)),
        0x96 => Some(entry(Mnemonic::STX, AddressingMode::ZeroPage_Y, 2, 4)),
        0x8E => Some(entry(Mnemonic::STX, AddressingMode::Absolute, 3, 4)),
        0x84 => Some(entry(Mnemonic::STY, AddressingMode::ZeroPage, 2, 3)),
        0x94 => Some(entry(Mnemonic::STY, AddressingMode::ZeroPage_X, 2, 4)),
        0x8C => Some(entry(Mnemonic::STY, AddressingMode::Absolute, 3, 4)),
        0x69 => Some(entry(Mnemonic::ADC, AddressingMode::Immediate, 2, 2)),
        0x65 => Some(entry(Mnemonic::ADC, AddressingMode::ZeroPage, 2, 3)),
        0x75 => Some(entry(Mnemonic::ADC, AddressingMode::ZeroPage_X, 2, 4)),
        0x6D => Some(entry(Mnemonic::ADC, AddressingMode::Absolute, 3, 4)),
        0x7D => Some(entry(Mnemonic::ADC, AddressingMode::Absolute_X, 3, 4)),
        0x79 => Some(entry(Mnemonic::ADC, AddressingMode::Absolute_Y, 3, 4)),
        0x61 => Some(entry(Mnemonic::ADC, AddressingMode::Indirect_X, 2, 6)),
        0x71 => Some(entry(Mnemonic::ADC, AddressingMode::Indirect_Y, 2, 5)),
        _ => None,
    }
}

/// Looks `opcode` up in the opcode table.
pub fn lookup(opcode: u8) -> (d: Option<OpcodeDescriptor>)
    ensures
        d == descriptor(opcode),
{
    match opcode {
        0x00 => Some(entry(Mnemonic::BRK, AddressingMode::NoneAddressing, 1, 7)),
        0xAA => Some(entry(Mnemonic::TAX, AddressingMode::NoneAddressing, 1, 2)),
        0xE8 => Some(entry(Mnemonic::INX, AddressingMode::NoneAddressing, 1, 2)),
        0xA9 => Some(entry(Mnemonic::LDA, AddressingMode::Immediate, 2, 2)),
        0xA5 => Some(entry(Mnemonic::LDA, AddressingMode::ZeroPage, 2, 3)),
        0xB5 => Some(entry(Mnemonic::LDA, AddressingMode::ZeroPage_X, 2, 4)),
        0xAD => Some(entry(Mnemonic::LDA, AddressingMode::Absolute, 3, 4)),
        0xBD => Some(entry(Mnemonic::LDA, AddressingMode::Absolute_X, 3, 4)),
        0xB9 => Some(entry(Mnemonic::LDA, AddressingMode::Absolute_Y, 3, 4)),
        0xA1 => Some(entry(Mnemonic::LDA, AddressingMode::Indirect_X, 2, 6)),
        0xB1 => Some(entry(Mnemonic::LDA, AddressingMode::Indirect_Y, 2, 5)),
        0xA2 => Some(entry(Mnemonic::LDX, AddressingMode::Immediate, 2, 2)),
        0xA6 => Some(entry(Mnemonic::LDX, AddressingMode::ZeroPage, 2, 3)),
        0xB6 => Some(entry(Mnemonic::LDX, AddressingMode::ZeroPage_Y, 2, 4)),
        0xAE => Some(entry(Mnemonic::LDX, AddressingMode::Absolute, 3, 4)),
        0xBE => Some(entry(Mnemonic::LDX, AddressingMode::Absolute_Y, 3, 4)),
        0xA0 => Some(entry(Mnemonic::LDY, AddressingMode::Immediate, 2, 2)),
        0xA4 => Some(entry(Mnemonic::LDY, AddressingMode::ZeroPage, 2, 3)),
        0xB4 => Some(entry(Mnemonic::LDY, AddressingMode::ZeroPage_X, 2, 4)),
        0xAC => Some(entry(Mnemonic::LDY, AddressingMode::Absolute, 3, 4)),
        0xBC => Some(entry(Mnemonic::LDY, AddressingMode::Absolute_X, 3, 4)),
        0x85 => Some(entry(Mnemonic::STA, AddressingMode::ZeroPage, 2, 3)),
        0x95 => Some(entry(Mnemonic::STA, AddressingMode::ZeroPage_X, 2, 4)),
        0x8D => Some(entry(Mnemonic::STA, AddressingMode::Absolute, 3, 4)),
        0x9D => Some(entry(Mnemonic::STA, AddressingMode::Absolute_X, 3, 5)),
        0x99 => Some(entry(Mnemonic::STA, AddressingMode::Absolute_Y, 3, 5)),
        0x81 => Some(entry(Mnemonic::STA, AddressingMode::Indirect_X, 2, 6)),
        0x91 => Some(entry(Mnemonic::STA, AddressingMode::Indirect_Y, 2, 6)),
        0x86 => Some(entry(Mnemonic::STX, AddressingMode::ZeroPage, 2, 3)),
        0x96 => Some(entry(Mnemonic::STX, AddressingMode::ZeroPage_Y, 2, 4)),
        0x8E => Some(entry(Mnemonic::STX, AddressingMode::Absolute, 3, 4)),
        0x84 => Some(entry(Mnemonic::STY, AddressingMode::ZeroPage, 2, 3)),
        0x94 => Some(entry(Mnemonic::STY, AddressingMode::ZeroPage_X, 2, 4)),
        0x8C => Some(entry(Mnemonic::STY, AddressingMode::Absolute, 3, 4)),
        0x69 => Some(entry(Mnemonic::ADC, AddressingMode::Immediate, 2, 2)),
        0x65 => Some(entry(Mnemonic::ADC, AddressingMode::ZeroPage, 2, 3)),
        0x75 => Some(entry(Mnemonic::ADC, AddressingMode::ZeroPage_X, 2, 4)),
        0x6D => Some(entry(Mnemonic::ADC, AddressingMode::Absolute, 3, 4)),
        0x7D => Some(entry(Mnemonic::ADC, AddressingMode::Absolute_X, 3, 4)),
        0x79 => Some(entry(Mnemonic::ADC, AddressingMode::Absolute_Y, 3, 4)),
        0x61 => Some(entry(Mnemonic::ADC, AddressingMode::Indirect_X, 2, 6)),
        0x71 => Some(entry(Mnemonic::ADC, AddressingMode::Indirect_Y, 2, 5)),
        _ => None,
    }
}

/// Every row of the table is well formed, and pairs an operation on a memory
/// operand with a mode that designates one.
pub proof fn lemma_table_rows(opcode: u8)
    ensures
        descriptor(opcode) matches Some(d) ==> d.wf() && d.executable(),
{
}

} // verus!
