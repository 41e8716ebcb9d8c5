//! The processor as a mathematical object.
//!
//! A [`Machine`] is the whole state of the processor: registers, status byte
//! and address space. The functions on it say what an instruction, a step and
//! a run do to that state; the contracts of the executable processor are
//! stated over them.

use vstd::prelude::*;
use crate::addressing::{effective_address, AddressingMode};
use crate::arith::{wrap_u16, wrap_u8};
use crate::error::CpuError;
use crate::flags::{is_set, lemma_zero_negative, zero_negative, Flag, POWER_ON_STATUS};
use crate::memory::{lemma_write_read_u16, place, read_u16, write_u16, MEMORY_SIZE};
use crate::opcodes::{descriptor, lemma_table_rows, Mnemonic, OpcodeDescriptor};

verus! {

/// Address at which a program image is placed.
pub const PROGRAM_BASE: u16 = 0x8000;

/// Address of the reset vector: the little-endian address at which execution
/// starts after a reset.
pub const RESET_VECTOR: u16 = 0xFFFC;

/// Value of the stack pointer after power-on or reset. The stack pointer is
/// an offset into the page at `0x0100`.
pub const STACK_RESET: u8 = 0xFD;

/// How a step that did not fail ended.
#[derive(Clone, Copy, Debug, PartialEq, Eq, Structural)]
pub enum StepOutcome {
    /// An instruction was executed; the next one can be fetched.
    Continue,
    /// The break instruction was met: the run is over.
    Halt,
}

/// The program counter after an instruction of `length` bytes whose opcode
/// has been fetched: `pc_before` pointed at the operand bytes when the
/// instruction began, `pc_after` is what the instruction left. An instruction
/// that did not touch the program counter has its operand bytes skipped; one
/// that redirected control keeps the value it set.
pub open spec fn spec_advance_unless_redirected(pc_before: u16, pc_after: u16, length: u8) -> u16 {
    if pc_after == pc_before {
        wrap_u16(pc_before + length - 1)
    } else {
        pc_after
    }
}

/// The stepping policy "advance unless redirected": the program counter
/// after an instruction of `length` bytes, of which `pc_before` was the
/// address of the first operand byte and which left `pc_after`.
#[verifier::when_used_as_spec(spec_advance_unless_redirected)]
pub fn advance_unless_redirected(pc_before: u16, pc_after: u16, length: u8) -> (pc: u16)
    requires
        length >= 1,
    ensures
        pc == spec_advance_unless_redirected(pc_before, pc_after, length),
{
    if pc_after == pc_before {
        pc_before.wrapping_add((length - 1) as u16)
    } else {
        pc_after
    }
}

/// The state of the processor and its address space.
#[verifier::ext_equal]
pub struct Machine {
    /// Accumulator.
    pub a: u8,
    /// Index register X.
    pub x: u8,
    /// Index register Y.
    pub y: u8,
    /// Status byte; see [`crate::flags`].
    pub status: u8,
    /// Program counter.
    pub pc: u16,
    /// Stack pointer.
    pub sp: u8,
    /// The address space, indexed by address.
    pub memory: Seq<u8>,
}

impl Machine {
    /// The address space has a byte for every 16-bit address.
    pub open spec fn wf(self) -> bool {
        self.memory.len() == MEMORY_SIZE
    }

    /// The state after power-on: registers and memory zero, the status and
    /// the stack pointer at their reset values.
    pub open spec fn power_on() -> Machine {
        Machine {
            a: 0,
            x: 0,
            y: 0,
            status: POWER_ON_STATUS,
            pc: 0,
            sp: STACK_RESET,
            memory: Seq::new(MEMORY_SIZE as nat, |addr: int| 0u8),
        }
    }

    /// The byte at `addr`.
    pub open spec fn read(self, addr: u16) -> u8 {
        self.memory[addr as int]
    }

    /// The little-endian 16-bit value at `pos`.
    pub open spec fn read_u16(self, pos: u16) -> u16 {
        read_u16(self.memory, pos)
    }

    /// The state after `data` has been stored at `addr`.
    pub open spec fn write(self, addr: u16, data: u8) -> Machine {
        Machine { memory: self.memory.update(addr as int, data), ..self }
    }

    /// The state after `data` has been stored little-endian at `pos`.
    pub open spec fn write_u16(self, pos: u16, data: u16) -> Machine {
        Machine { memory: write_u16(self.memory, pos, data), ..self }
    }

    /// The state after `program` has been loaded: its bytes lie from
    /// [`PROGRAM_BASE`] on, and the reset vector, written after them, points
    /// at [`PROGRAM_BASE`].
    pub open spec fn load(self, program: Seq<u8>) -> Machine {
        Machine {
            memory: write_u16(
                place(self.memory, PROGRAM_BASE, program),
                RESET_VECTOR,
                PROGRAM_BASE,
            ),
            ..self
        }
    }

    /// The state after a reset: A and X are zero, the status and the stack
    /// pointer have their reset values, and the program counter holds the
    /// reset vector. Y and the address space are as before.
    pub open spec fn reset(self) -> Machine {
        Machine {
            a: 0,
            x: 0,
            status: POWER_ON_STATUS,
            sp: STACK_RESET,
            pc: self.read_u16(RESET_VECTOR),
            ..self
        }
    }

    /// The state after the shared flag rule has been applied for `value`.
    pub open spec fn flags_updated(self, value: u8) -> Machine {
        Machine { status: zero_negative(self.status, value), ..self }
    }

    /// The operand address in `mode`, the program counter pointing at the
    /// operand bytes.
    pub open spec fn operand_address(self, mode: AddressingMode) -> u16
        recommends
            mode.has_operand(),
    {
        effective_address(mode, self.pc, self.x, self.y, self.memory)
    }

    /// The operand byte in `mode`.
    pub open spec fn operand(self, mode: AddressingMode) -> u8
        recommends
            mode.has_operand(),
    {
        self.read(self.operand_address(mode))
    }

    /// Load the accumulator with the operand.
    pub open spec fn lda(self, mode: AddressingMode) -> Machine {
        Machine { a: self.operand(mode), ..self }.flags_updated(self.operand(mode))
    }

    /// Load X with the operand.
    pub open spec fn ldx(self, mode: AddressingMode) -> Machine {
        Machine { x: self.operand(mode), ..self }.flags_updated(self.operand(mode))
    }

    /// Load Y with the operand.
    pub open spec fn ldy(self, mode: AddressingMode) -> Machine {
        Machine { y: self.operand(mode), ..self }.flags_updated(self.operand(mode))
    }

    /// Store the accumulator at the operand address. No flag changes.
    pub open spec fn sta(self, mode: AddressingMode) -> Machine {
        self.write(self.operand_address(mode), self.a)
    }

    /// Store X at the operand address. No flag changes.
    pub open spec fn stx(self, mode: AddressingMode) -> Machine {
        self.write(self.operand_address(mode), self.x)
    }

    /// Store Y at the operand address. No flag changes.
    pub open spec fn sty(self, mode: AddressingMode) -> Machine {
        self.write(self.operand_address(mode), self.y)
    }

    /// Copy the accumulator to X.
    pub open spec fn tax(self) -> Machine {
        Machine { x: self.a, ..self }.flags_updated(self.a)
    }

    /// Add one to X, modulo 256.
    pub open spec fn inx(self) -> Machine {
        Machine { x: wrap_u8(self.x + 1), ..self }.flags_updated(wrap_u8(self.x + 1))
    }

    /// Add the operand to the accumulator, modulo 256. The carry flag is
    /// neither read nor written.
    pub open spec fn adc(self, mode: AddressingMode) -> Machine {
        Machine { a: wrap_u8(self.a + self.operand(mode)), ..self }.flags_updated(
            wrap_u8(self.a + self.operand(mode)),
        )
    }

    /// The state after the operation `mnemonic` has been performed in `mode`,
    /// the program counter left alone.
    pub open spec fn perform(self, mnemonic: Mnemonic, mode: AddressingMode) -> Machine {
        match mnemonic {
            Mnemonic::ADC => self.adc(mode),
            Mnemonic::BRK => self,
            Mnemonic::INX => self.inx(),
            Mnemonic::LDA => self.lda(mode),
            Mnemonic::LDX => self.ldx(mode),
            Mnemonic::LDY => self.ldy(mode),
            Mnemonic::STA => self.sta(mode),
            Mnemonic::STX => self.stx(mode),
            Mnemonic::STY => self.sty(mode),
            Mnemonic::TAX => self.tax(),
        }
    }

    /// The register that the operation `mnemonic` puts its result in, for the
    /// operations that have one; the accumulator for the others.
    pub open spec fn result_register(self, mnemonic: Mnemonic) -> u8 {
        match mnemonic {
            Mnemonic::INX | Mnemonic::LDX | Mnemonic::TAX => self.x,
            Mnemonic::LDY => self.y,
            _ => self.a,
        }
    }

    /// The state after the execute phase for the row `row`, the program
    /// counter pointing at the operand bytes: the operation is performed and
    /// the program counter advanced past the operand bytes. A row that cannot
    /// be executed leaves the state as it is.
    pub open spec fn execute(self, row: OpcodeDescriptor) -> Machine {
        if row.executable() {
            let done = self.perform(row.mnemonic, row.mode);
            Machine { pc: advance_unless_redirected(self.pc, done.pc, row.length), ..done }
        } else {
            self
        }
    }

    /// What the execute phase for the row `row` of the opcode byte `opcode`
    /// reports, the program counter pointing at the operand bytes.
    pub open spec fn execute_result(self, opcode: u8, row: OpcodeDescriptor) -> Result<
        StepOutcome,
        CpuError,
    > {
        if !row.executable() {
            Err(
                CpuError::UnsupportedAddressingMode {
                    opcode,
                    program_counter: wrap_u16(self.pc - 1),
                },
            )
        } else if row.mnemonic == Mnemonic::BRK {
            Ok(StepOutcome::Halt)
        } else {
            Ok(StepOutcome::Continue)
        }
    }

    /// The opcode byte that the next step fetches.
    pub open spec fn opcode(self) -> u8 {
        self.read(self.pc)
    }

    /// The state after the opcode has been fetched: the program counter
    /// points at the byte after it.
    pub open spec fn fetched(self) -> Machine {
        Machine { pc: wrap_u16(self.pc + 1), ..self }
    }

    /// The state after one step: fetch, decode, execute. The program counter
    /// moves past the opcode byte whether or not the byte can be decoded.
    pub open spec fn step(self) -> Machine {
        match descriptor(self.opcode()) {
            Some(row) => self.fetched().execute(row),
            None => self.fetched(),
        }
    }

    /// What one step reports.
    pub open spec fn step_result(self) -> Result<StepOutcome, CpuError> {
        match descriptor(self.opcode()) {
            Some(row) => self.fetched().execute_result(self.opcode(), row),
            None => Err(
                CpuError::UnknownOpcode { opcode: self.opcode(), program_counter: self.pc },
            ),
        }
    }

    /// Whether the next step ends the run, by the break instruction or by an
    /// error.
    pub open spec fn stops(self) -> bool {
        self.step_result() != Ok::<StepOutcome, CpuError>(StepOutcome::Continue)
    }

    /// The state after `steps` steps.
    pub open spec fn after_steps(self, steps: nat) -> Machine
        decreases steps,
    {
        if steps == 0 {
            self
        } else {
            self.step().after_steps((steps - 1) as nat)
        }
    }

    /// Whether a run from this state executes exactly `steps` instructions
    /// and is then ended by the step that follows them.
    pub open spec fn stops_after(self, steps: nat) -> bool {
        &&& self.after_steps(steps).stops()
        &&& forall|k: nat| k < steps ==> !(#[trigger] self.after_steps(k)).stops()
    }

    /// Whether a run from this state comes to an end.
    pub open spec fn terminates(self) -> bool {
        exists|steps: nat| self.stops_after(steps)
    }

    /// The number of instructions that a run from this state executes before
    /// the step that ends it. It has no meaning for a run without end.
    pub open spec fn steps_before_stop(self) -> nat
        recommends
            self.terminates(),
    {
        choose|steps: nat| self.stops_after(steps)
    }

    /// The state in which the step that ends a run from this state begins.
    pub open spec fn stopping_state(self) -> Machine
        recommends
            self.terminates(),
    {
        self.after_steps(self.steps_before_stop())
    }

    /// The state in which a run from this state ends: the one that the
    /// ending step leaves.
    pub open spec fn run(self) -> Machine
        recommends
            self.terminates(),
    {
        self.after_steps(self.steps_before_stop() + 1)
    }

    /// What a run from this state reports: success if the break instruction
    /// ended it, else the error of the step that failed.
    pub open spec fn run_result(self) -> Result<(), CpuError>
        recommends
            self.terminates(),
    {
        match self.stopping_state().step_result() {
            Ok(_) => Ok(()),
            Err(e) => Err(e),
        }
    }

    /// Loading, resetting and stepping keep the address space complete.
    pub proof fn lemma_wf_is_kept(self, program: Seq<u8>)
        requires
            self.wf(),
        ensures
            self.load(program).wf(),
            self.reset().wf(),
            self.step().wf(),
    {
    }

    /// The address space is complete after any number of steps.
    pub proof fn lemma_wf_after_steps(self, steps: nat)
        requires
            self.wf(),
        ensures
            self.after_steps(steps).wf(),
        decreases steps,
    {
        if steps > 0 {
            self.lemma_wf_is_kept(Seq::empty());
            self.step().lemma_wf_after_steps((steps - 1) as nat);
        }
    }

    /// What loading and resetting set up: execution starts at
    /// [`PROGRAM_BASE`], the bytes of the program lie from there on, except
    /// where a program that long has been overwritten by the reset vector,
    /// and memory below [`PROGRAM_BASE`] is as it was.
    pub proof fn lemma_loaded_program(self, program: Seq<u8>)
        requires
            self.wf(),
            program.len() <= MEMORY_SIZE - PROGRAM_BASE,
        ensures
            ({
                let ready = self.load(program).reset();
                &&& ready.pc == PROGRAM_BASE
                &&& ready.read_u16(RESET_VECTOR) == PROGRAM_BASE
                &&& forall|i: int|
                    0 <= i < program.len() && PROGRAM_BASE + i != RESET_VECTOR && PROGRAM_BASE + i
                        != RESET_VECTOR + 1 ==> #[trigger] ready.memory[PROGRAM_BASE + i]
                        == program[i]
                &&& forall|addr: int|
                    0 <= addr < PROGRAM_BASE ==> #[trigger] ready.memory[addr] == self.memory[addr]
            }),
    {
        let placed = place(self.memory, PROGRAM_BASE, program);
        lemma_write_read_u16(placed, RESET_VECTOR, PROGRAM_BASE);
    }

    /// Steps add up: `steps` steps and one more are one step and then `steps`.
    pub proof fn lemma_after_steps_successor(self, steps: nat)
        ensures
            self.after_steps(steps + 1) == self.step().after_steps(steps),
            self.after_steps(steps + 1) == self.after_steps(steps).step(),
        decreases steps,
    {
        if steps > 0 {
            self.step().lemma_after_steps_successor((steps - 1) as nat);
        }
    }

    /// A run ends at one point only.
    pub proof fn lemma_stop_is_unique(self, first: nat, second: nat)
        requires
            self.stops_after(first),
            self.stops_after(second),
        ensures
            first == second,
    {
        if first < second {
            assert(!self.after_steps(first).stops());
        } else if second < first {
            assert(!self.after_steps(second).stops());
        }
    }

    /// A run that is known to end after `steps` instructions terminates, and
    /// its end state and its report are those of the step after them.
    pub proof fn lemma_run_of_stop(self, steps: nat)
        requires
            self.stops_after(steps),
        ensures
            self.terminates(),
            self.steps_before_stop() == steps,
            self.run() == self.after_steps(steps).step(),
            self.run_result() == (match self.after_steps(steps).step_result() {
                Ok(_) => Ok::<(), CpuError>(()),
                Err(e) => Err(e),
            }),
    {
        self.lemma_stop_is_unique(steps, self.steps_before_stop());
        self.lemma_after_steps_successor(steps);
    }

    /// A run is its first step followed by the run from the state which that
    /// step leaves, unless the first step ends it.
    pub proof fn lemma_run_unfolds(self)
        requires
            self.terminates(),
        ensures
            self.stops() ==> {
                &&& self.steps_before_stop() == 0
                &&& self.run() == self.step()
                &&& self.run_result() == (match self.step_result() {
                    Ok(_) => Ok::<(), CpuError>(()),
                    Err(e) => Err(e),
                })
            },
            !self.stops() ==> {
                &&& self.step().terminates()
                &&& self.steps_before_stop() == self.step().steps_before_stop() + 1
                &&& self.run() == self.step().run()
                &&& self.run_result() == self.step().run_result()
            },
    {
        let steps = self.steps_before_stop();
        if self.stops() {
            self.lemma_run_of_stop(0);
        } else {
            let next = self.step();
            let rest = (steps - 1) as nat;
            assert forall|k: nat| k < rest implies !(#[trigger] next.after_steps(k)).stops() by {
                self.lemma_after_steps_successor(k);
            }
            self.lemma_after_steps_successor(rest);
            next.lemma_run_of_stop(rest);
            self.lemma_run_of_stop(steps);
        }
    }

    /// The flag rule shared by the operations that put a result in a
    /// register (loads, the transfer, the increment and the addition):
    /// afterwards `Zero` is set exactly when the result is zero, `Negative`
    /// exactly when bit 7 of the result is set, and every other flag is as it
    /// was.
    pub proof fn lemma_flags_follow_result(
        self,
        mnemonic: Mnemonic,
        mode: AddressingMode,
        flag: Flag,
    )
        requires
            mnemonic == Mnemonic::ADC || mnemonic == Mnemonic::INX || mnemonic == Mnemonic::LDA
                || mnemonic == Mnemonic::LDX || mnemonic == Mnemonic::LDY || mnemonic
                == Mnemonic::TAX,
        ensures
            ({
                let after = self.perform(mnemonic, mode);
                let result = after.result_register(mnemonic);
                is_set(after.status, flag) == (match flag {
                    Flag::Zero => result == 0,
                    Flag::Negative => result & 0x80 != 0,
                    _ => is_set(self.status, flag),
                })
            }),
    {
        let after = self.perform(mnemonic, mode);
        lemma_zero_negative(self.status, after.result_register(mnemonic), flag);
    }

    /// Straight-line stepping: a step that decodes leaves the program
    /// counter at the start of the next instruction, the instruction's length
    /// past the opcode, modulo 2^16. A step that does not decode leaves it one
    /// past the byte that failed.
    pub proof fn lemma_step_advances(self)
        ensures
            match descriptor(self.opcode()) {
                Some(row) => self.step().pc == (self.pc + row.length) % 0x10000,
                None => self.step().pc == (self.pc + 1) % 0x10000,
            },
    {
        lemma_table_rows(self.opcode());
    }

    /// Only a byte without a table entry makes a step fail. The error names
    /// that byte and its address, and the state is the one in which the byte
    /// has been fetched.
    pub proof fn lemma_step_fails_on_unknown_opcode_only(self)
        ensures
            self.step_result() is Err <==> descriptor(self.opcode()) is None,
            descriptor(self.opcode()) is None ==> self.step_result() == Err::<
                StepOutcome,
                CpuError,
            >(CpuError::UnknownOpcode { opcode: self.opcode(), program_counter: self.pc })
                && self.step() == self.fetched(),
    {
        lemma_table_rows(self.opcode());
    }

    /// How a run ends. It ends in the state that its last step leaves. It
    /// succeeds exactly when that step met the break instruction, and fails
    /// exactly when that step fetched a byte without a table entry, with
    /// `UnknownOpcode` for that byte and its address.
    pub proof fn lemma_run_outcome(self)
        requires
            self.terminates(),
        ensures
            self.stopping_state().stops(),
            self.run() == self.stopping_state().step(),
            self.run_result() is Ok <==> self.stopping_state().step_result() == Ok::<
                StepOutcome,
                CpuError,
            >(StepOutcome::Halt),
            self.run_result() is Err <==> descriptor(self.stopping_state().opcode()) is None,
            self.run_result() is Err ==> self.run_result() == Err::<(), CpuError>(
                CpuError::UnknownOpcode {
                    opcode: self.stopping_state().opcode(),
                    program_counter: self.stopping_state().pc,
                },
            ),
    {
        let steps = self.steps_before_stop();
        self.lemma_after_steps_successor(steps);
        self.stopping_state().lemma_step_fails_on_unknown_opcode_only();
    }

    /// Decode failure aborts the run: if the run reaches, after `steps`
    /// instructions, a byte that has no table entry, it ends there with
    /// `UnknownOpcode` for that byte and its address, and no further
    /// instruction is executed.
    pub proof fn lemma_unknown_opcode_aborts_run(self, steps: nat)
        requires
            forall|k: nat| k < steps ==> !(#[trigger] self.after_steps(k)).stops(),
            descriptor(self.after_steps(steps).opcode()) is None,
        ensures
            self.terminates(),
            self.steps_before_stop() == steps,
            self.run_result() == Err::<(), CpuError>(
                CpuError::UnknownOpcode {
                    opcode: self.after_steps(steps).opcode(),
                    program_counter: self.after_steps(steps).pc,
                },
            ),
            self.run() == self.after_steps(steps).fetched(),
    {
        self.after_steps(steps).lemma_step_fails_on_unknown_opcode_only();
        self.lemma_run_of_stop(steps);
    }
}

} // verus!
