//! The executable processor: register file, address space, instruction
//! handlers and the fetch-decode-execute loop.
//!
//! The view of a [`CPU`] is a [`Machine`]; every contract here says what the
//! function does to that view.

use vstd::pervasive::unreached;
use vstd::prelude::*;
use crate::addressing::AddressingMode;
use crate::arith::{lemma_wrapping_add_u16, lemma_wrapping_add_u8};
use crate::error::CpuError;
use crate::flags::{follows_zero_negative_rule, is_set, Flag, FlagRegister};
use crate::machine::{
    advance_unless_redirected,
    Machine,
    StepOutcome,
    PROGRAM_BASE,
    RESET_VECTOR,
    STACK_RESET,
};
use crate::memory::{lemma_write_read_u16, word, Memory, MEMORY_SIZE};
use crate::opcodes::{descriptor, lemma_table_rows, lookup, Mnemonic, OpcodeDescriptor};

verus! {

/// The processor together with the address space it executes from.
pub struct CPU {
    /// Accumulator.
    pub register_a: u8,
    /// Index register X.
    pub register_x: u8,
    /// Index register Y.
    pub register_y: u8,
    /// Status flags.
    pub status: FlagRegister,
    /// Address of the next byte to fetch.
    pub program_counter: u16,
    /// Offset of the stack top within the page at `0x0100`.
    pub stack_pointer: u8,
    /// The address space.
    pub memory: Memory,
}

impl View for CPU {
    type V = Machine;

    open spec fn view(&self) -> Machine {
        Machine {
            a: self.register_a,
            x: self.register_x,
            y: self.register_y,
            status: self.status@,
            pc: self.program_counter,
            sp: self.stack_pointer,
            memory: self.memory@,
        }
    }
}

impl CPU {
    /// The address space of every processor is complete.
    pub proof fn lemma_wf(&self)
        ensures
            self@.wf(),
    {
        self.memory.lemma_len();
    }

    /// A processor after power-on, on an address space of zeros.
    pub fn new() -> (cpu: CPU)
        ensures
            cpu@ == Machine::power_on(),
            forall|flag: Flag|
                is_set(cpu@.status, flag) == (flag == Flag::InterruptDisable || flag
                    == Flag::Break2),
    {
        CPU {
            register_a: 0,
            register_x: 0,
            register_y: 0,
            status: FlagRegister::new(),
            program_counter: 0,
            stack_pointer: STACK_RESET,
            memory: Memory::new(),
        }
    }

    /// The byte at `addr`.
    pub fn mem_read(&self, addr: u16) -> (value: u8)
        ensures
            value == self@.read(addr),
    {
        self.memory.read(addr)
    }

    /// The little-endian 16-bit value at `pos`: low byte at `pos`, high byte
    /// at the address after it. After `0xFFFF` comes `0x0000`.
    pub fn mem_read_u16(&self, pos: u16) -> (value: u16)
        ensures
            value == self@.read_u16(pos),
    {
        let lo: u8 = self.mem_read(pos);
        let hi: u8 = self.mem_read(pos.wrapping_add(1));
        word(lo, hi)
    }

    /// Stores `data` at `addr`. Nothing else changes.
    pub fn mem_write(&mut self, addr: u16, data: u8)
        ensures
            final(self)@ == old(self)@.write(addr, data),
    {
        self.memory.write(addr, data);
    }

    /// Stores `data` little-endian at `pos`: low byte at `pos`, high byte at
    /// the address after it. After `0xFFFF` comes `0x0000`. Nothing else
    /// changes, and reading the value back gives `data`.
    pub fn mem_write_u16(&mut self, pos: u16, data: u16)
        ensures
            final(self)@ == old(self)@.write_u16(pos, data),
            final(self)@.read_u16(pos) == data,
    {
        assert(data >> 8 == data / 256 && data & 0xff == data % 256) by (bit_vector);
        let hi: u8 = (data >> 8) as u8;
        let lo: u8 = (data & 0xff) as u8;
        self.mem_write(pos, lo);
        self.mem_write(pos.wrapping_add(1), hi);
        proof {
            old(self).lemma_wf();
            lemma_write_read_u16(old(self)@.memory, pos, data);
        }
    }

    /// Resets the processor: A and X become zero, the flags and the stack
    /// pointer take their reset values, and execution will start at the
    /// address held by the reset vector. Y and memory are left as they are.
    pub fn reset(&mut self)
        ensures
            final(self)@ == old(self)@.reset(),
            forall|flag: Flag|
                is_set(final(self)@.status, flag) == (flag == Flag::InterruptDisable || flag
                    == Flag::Break2),
    {
        self.register_a = 0;
        self.register_x = 0;
        self.status = FlagRegister::new();
        self.stack_pointer = STACK_RESET;
        self.program_counter = self.mem_read_u16(RESET_VECTOR);
    }

    /// Loads `program`, resets the processor and runs it to its end: to the
    /// break instruction, which is success, or to the first byte that cannot
    /// be decoded, which is reported as `UnknownOpcode` with that byte and its
    /// address.
    ///
    /// The program has to fit between [`PROGRAM_BASE`] and the end of memory,
    /// and its run has to come to an end (see [`CPU::run`]).
    pub fn load_and_run(&mut self, program: Vec<u8>) -> (r: Result<(), CpuError>)
        requires
            program@.len() <= MEMORY_SIZE - PROGRAM_BASE,
            old(self)@.load(program@).reset().terminates(),
        ensures
            final(self)@ == old(self)@.load(program@).reset().run(),
            r == old(self)@.load(program@).reset().run_result(),
            ({
                let last = old(self)@.load(program@).reset().stopping_state();
                &&& r is Ok <==> last.step_result() == Ok::<StepOutcome, CpuError>(
                    StepOutcome::Halt,
                )
                &&& r is Err <==> descriptor(last.opcode()) is None
                &&& r is Err ==> r == Err::<(), CpuError>(
                    CpuError::UnknownOpcode { opcode: last.opcode(), program_counter: last.pc },
                )
            }),
    {
        self.load(program);
        self.reset();
        self.run()
    }

    /// Copies `program` into memory from [`PROGRAM_BASE`] on, then points the
    /// reset vector at [`PROGRAM_BASE`]. Registers are left as they are.
    ///
    /// The program has to fit between [`PROGRAM_BASE`] and the end of memory.
    /// One that reaches the reset vector has the bytes there replaced by the
    /// vector.
    pub fn load(&mut self, program: Vec<u8>)
        requires
            program@.len() <= MEMORY_SIZE - PROGRAM_BASE,
        ensures
            final(self)@ == old(self)@.load(program@),
            final(self)@.read_u16(RESET_VECTOR) == PROGRAM_BASE,
    {
        self.memory.write_bytes(PROGRAM_BASE, &program);
        self.mem_write_u16(RESET_VECTOR, PROGRAM_BASE);
    }

    /// Loads the accumulator with the operand and updates `Zero` and
    /// `Negative` for it.
    pub fn lda(&mut self, mode: &AddressingMode)
        requires
            mode.has_operand(),
        ensures
            final(self)@ == old(self)@.lda(*mode),
            final(self).register_a == old(self)@.operand(*mode),
            follows_zero_negative_rule(
                old(self)@.status,
                final(self)@.status,
                final(self).register_a,
            ),
    {
        let addr: u16 = self.get_operand_address(mode);
        let value: u8 = self.mem_read(addr);
        self.register_a = value;
        self.update_zero_and_negative_flags(value);
    }

    /// Loads X with the operand and updates `Zero` and `Negative` for it.
    pub fn ldx(&mut self, mode: &AddressingMode)
        requires
            mode.has_operand(),
        ensures
            final(self)@ == old(self)@.ldx(*mode),
            final(self).register_x == old(self)@.operand(*mode),
            follows_zero_negative_rule(
                old(self)@.status,
                final(self)@.status,
                final(self).register_x,
            ),
    {
        let addr: u16 = self.get_operand_address(mode);
        let value: u8 = self.mem_read(addr);
        self.register_x = value;
        self.update_zero_and_negative_flags(value);
    }

    /// Loads Y with the operand and updates `Zero` and `Negative` for it.
    pub fn ldy(&mut self, mode: &AddressingMode)
        requires
            mode.has_operand(),
        ensures
            final(self)@ == old(self)@.ldy(*mode),
            final(self).register_y == old(self)@.operand(*mode),
            follows_zero_negative_rule(
                old(self)@.status,
                final(self)@.status,
                final(self).register_y,
            ),
    {
        let addr: u16 = self.get_operand_address(mode);
        let value: u8 = self.mem_read(addr);
        self.register_y = value;
        self.update_zero_and_negative_flags(value);
    }

    /// Stores the accumulator at the operand address. No flag changes.
    pub fn sta(&mut self, mode: &AddressingMode)
        requires
            mode.has_operand(),
        ensures
            final(self)@ == old(self)@.sta(*mode),
    {
        let addr: u16 = self.get_operand_address(mode);
        self.mem_write(addr, self.register_a)
    }

    /// Stores X at the operand address. No flag changes.
    pub fn stx(&mut self, mode: &AddressingMode)
        requires
            mode.has_operand(),
        ensures
            final(self)@ == old(self)@.stx(*mode),
    {
        let addr: u16 = self.get_operand_address(mode);
        self.mem_write(addr, self.register_x)
    }

    /// Stores Y at the operand address. No flag changes.
    pub fn sty(&mut self, mode: &AddressingMode)
        requires
            mode.has_operand(),
        ensures
            final(self)@ == old(self)@.sty(*mode),
    {
        let addr: u16 = self.get_operand_address(mode);
        self.mem_write(addr, self.register_y)
    }

    /// Adds one to X, wrapping from `0xFF` to `0x00`, and updates `Zero` and
    /// `Negative` for the new value.
    pub fn inx(&mut self)
        ensures
            final(self)@ == old(self)@.inx(),
            final(self).register_x == (old(self).register_x + 1) % 256,
            follows_zero_negative_rule(
                old(self)@.status,
                final(self)@.status,
                final(self).register_x,
            ),
    {
        self.register_x = self.register_x.wrapping_add(1);
        self.update_zero_and_negative_flags(self.register_x);
    }

    /// Copies the accumulator to X and updates `Zero` and `Negative` for it.
    pub fn tax(&mut self)
        ensures
            final(self)@ == old(self)@.tax(),
            final(self).register_x == old(self).register_a,
            follows_zero_negative_rule(
                old(self)@.status,
                final(self)@.status,
                final(self).register_x,
            ),
    {
        self.register_x = self.register_a;
        self.update_zero_and_negative_flags(self.register_x);
    }

    /// Adds the operand to the accumulator, wrapping modulo 256, and updates
    /// `Zero` and `Negative` for the sum. The carry flag is neither added in
    /// nor written, and `Overflow` is left alone.
    pub fn adc(&mut self, mode: &AddressingMode)
        requires
            mode.has_operand(),
        ensures
            final(self)@ == old(self)@.adc(*mode),
            final(self).register_a == (old(self).register_a + old(self)@.operand(*mode)) % 256,
            follows_zero_negative_rule(
                old(self)@.status,
                final(self)@.status,
                final(self).register_a,
            ),
    {
        let addr: u16 = self.get_operand_address(mode);
        let value: u8 = self.mem_read(addr);
        self.register_a = self.register_a.wrapping_add(value);
        self.update_zero_and_negative_flags(self.register_a);
    }

    /// The execute phase of a step, for the table row `row` of the fetched
    /// byte `opcode`; the program counter points at the operand bytes.
    ///
    /// A row that pairs an operation on a memory operand with the mode that
    /// has none is refused with `UnsupportedAddressingMode`, which names the
    /// opcode and the address it came from, and nothing changes. Otherwise the
    /// operation is performed and the program counter is advanced past the
    /// operand bytes, unless the operation itself redirected it. The break
    /// instruction reports `Halt`, every other one `Continue`.
    pub fn execute(&mut self, opcode: u8, row: &OpcodeDescriptor) -> (r: Result<
        StepOutcome,
        CpuError,
    >)
        requires
            row.wf(),
        ensures
            final(self)@ == old(self)@.execute(*row),
            r == old(self)@.execute_result(opcode, *row),
            r is Err <==> row.mnemonic.takes_operand() && !row.mode.has_operand(),
            r is Err ==> final(self)@ == old(self)@,
    {
        if row.mnemonic.takes_operand() && !row.mode.has_operand() {
            return Err(
                CpuError::UnsupportedAddressingMode {
                    opcode,
                    program_counter: self.program_counter.wrapping_sub(1),
                },
            );
        }
        let pc_before: u16 = self.program_counter;
        match row.mnemonic {
            Mnemonic::ADC => self.adc(&row.mode),
            Mnemonic::BRK => {},
            Mnemonic::INX => self.inx(),
            Mnemonic::LDA => self.lda(&row.mode),
            Mnemonic::LDX => self.ldx(&row.mode),
            Mnemonic::LDY => self.ldy(&row.mode),
            Mnemonic::STA => self.sta(&row.mode),
            Mnemonic::STX => self.stx(&row.mode),
            Mnemonic::STY => self.sty(&row.mode),
            Mnemonic::TAX => self.tax(),
        }
        self.program_counter = advance_unless_redirected(
            pc_before,
            self.program_counter,
            row.length,
        );
        match row.mnemonic {
            Mnemonic::BRK => Ok(StepOutcome::Halt),
            _ => Ok(StepOutcome::Continue),
        }
    }

    /// One step: fetches the byte at the program counter, moves the program
    /// counter past it, looks the byte up in the opcode table and executes
    /// the instruction.
    ///
    /// The step fails exactly when the byte has no table entry, with
    /// `UnknownOpcode` naming the byte and its address; the program counter
    /// has then moved past the byte and nothing else has changed.
    pub fn step(&mut self) -> (r: Result<StepOutcome, CpuError>)
        ensures
            final(self)@ == old(self)@.step(),
            r == old(self)@.step_result(),
            r is Err <==> descriptor(old(self)@.opcode()) is None,
            r is Err ==> r == Err::<StepOutcome, CpuError>(
                CpuError::UnknownOpcode {
                    opcode: old(self)@.opcode(),
                    program_counter: old(self).program_counter,
                },
            ) && final(self)@ == old(self)@.fetched(),
    {
        let opcode_address: u16 = self.program_counter;
        let opcode: u8 = self.mem_read(opcode_address);
        self.program_counter = self.program_counter.wrapping_add(1);
        match lookup(opcode) {
            Some(row) => {
                proof {
                    lemma_table_rows(opcode);
                }
                self.execute(opcode, &row)
            },
            None => Err(CpuError::UnknownOpcode { opcode, program_counter: opcode_address }),
        }
    }

    /// Runs from the current state: steps until the break instruction is
    /// met, which is success, or a step fails, which ends the run with that
    /// step's error.
    ///
    /// The run has to come to an end: on a program that never reaches the
    /// break instruction or a byte that cannot be decoded, the processor
    /// would go on stepping for ever. A caller that cannot promise an end
    /// drives the processor with [`CPU::step`] and decides itself when to
    /// give up.
    #[verifier::loop_isolation(false)]
    pub fn run(&mut self) -> (r: Result<(), CpuError>)
        requires
            old(self)@.terminates(),
        ensures
            final(self)@ == old(self)@.run(),
            r == old(self)@.run_result(),
            r is Ok <==> old(self)@.stopping_state().step_result() == Ok::<StepOutcome, CpuError>(
                StepOutcome::Halt,
            ),
            r is Err <==> descriptor(old(self)@.stopping_state().opcode()) is None,
            r is Err ==> r == Err::<(), CpuError>(
                CpuError::UnknownOpcode {
                    opcode: old(self)@.stopping_state().opcode(),
                    program_counter: old(self)@.stopping_state().pc,
                },
            ),
    {
        proof {
            self@.lemma_run_outcome();
        }
        loop
            invariant
                self@.terminates(),
                self@.run() == old(self)@.run(),
                self@.run_result() == old(self)@.run_result(),
            decreases self@.steps_before_stop(),
        {
            proof {
                self@.lemma_run_unfolds();
            }
            match self.step() {
                Ok(StepOutcome::Continue) => {},
                Ok(StepOutcome::Halt) => {
                    return Ok(());
                },
                Err(e) => {
                    return Err(e);
                },
            }
        }
    }

    /// Applies the shared flag rule for the 8-bit result `register_value`:
    /// `Zero` is set exactly when it is zero, `Negative` exactly when its bit 7
    /// is set. No other flag and nothing else changes.
    pub fn update_zero_and_negative_flags(&mut self, register_value: u8)
        ensures
            final(self)@ == old(self)@.flags_updated(register_value),
            is_set(final(self)@.status, Flag::Zero) == (register_value == 0),
            is_set(final(self)@.status, Flag::Negative) == (register_value & 0x80 != 0),
            forall|other: Flag|
                other != Flag::Zero && other != Flag::Negative ==> is_set(
                    final(self)@.status,
                    other,
                ) == is_set(old(self)@.status, other),
    {
        self.status.update_zero_and_negative(register_value);
    }

    /// Resolves the operand address for `mode`; the program counter points
    /// at the first operand byte. Nothing is changed.
    ///
    /// Sums with an 8-bit index inside the zero page wrap modulo 256, and so
    /// does the step from the low to the high byte of a zero-page pointer;
    /// sums on 16-bit addresses wrap modulo 2^16.
    pub fn get_operand_address(&self, mode: &AddressingMode) -> (addr: u16)
        requires
            mode.has_operand(),
        ensures
            addr == self@.operand_address(*mode),
            (*mode == AddressingMode::ZeroPage || *mode == AddressingMode::ZeroPage_X || *mode
                == AddressingMode::ZeroPage_Y) ==> addr < 0x100,
    {
        match mode {
            AddressingMode::Immediate => self.program_counter,
            AddressingMode::ZeroPage => self.mem_read(self.program_counter) as u16,
            AddressingMode::Absolute => self.mem_read_u16(self.program_counter),
            AddressingMode::ZeroPage_X => {
                let pos: u8 = self.mem_read(self.program_counter);
                proof {
                    lemma_wrapping_add_u8(pos, self.register_x);
                }
                pos.wrapping_add(self.register_x) as u16
            },
            AddressingMode::ZeroPage_Y => {
                let pos: u8 = self.mem_read(self.program_counter);
                proof {
                    lemma_wrapping_add_u8(pos, self.register_y);
                }
                pos.wrapping_add(self.register_y) as u16
            },
            AddressingMode::Absolute_X => {
                let base: u16 = self.mem_read_u16(self.program_counter);
                proof {
                    lemma_wrapping_add_u16(base, self.register_x as u16);
                }
                base.wrapping_add(self.register_x as u16)
            },
            AddressingMode::Absolute_Y => {
                let base: u16 = self.mem_read_u16(self.program_counter);
                proof {
                    lemma_wrapping_add_u16(base, self.register_y as u16);
                }
                base.wrapping_add(self.register_y as u16)
            },
            AddressingMode::Indirect_X => {
                let base: u8 = self.mem_read(self.program_counter);
                let ptr: u8 = base.wrapping_add(self.register_x);
                let lo: u8 = self.mem_read(ptr as u16);
                let hi: u8 = self.mem_read(ptr.wrapping_add(1) as u16);
                proof {
                    lemma_wrapping_add_u8(base, self.register_x);
                }
                word(lo, hi)
            },
            AddressingMode::Indirect_Y => {
                let base: u8 = self.mem_read(self.program_counter);
                let lo: u8 = self.mem_read(base as u16);
                let hi: u8 = self.mem_read(base.wrapping_add(1) as u16);
                let deref_base: u16 = word(lo, hi);
                proof {
                    lemma_wrapping_add_u16(deref_base, self.register_y as u16);
                }
                deref_base.wrapping_add(self.register_y as u16)
            },
            AddressingMode::NoneAddressing => unreached(),
        }
    }
}

} // verus!
