//! The processor state: status register, register file, memory and stack.

use vstd::prelude::*;
use vstd::std_specs::convert::FromSpecImpl;

use crate::instructions::{
    find_instruction, init_instructions, instruction_table, lookup, Instruction,
};
use crate::word::{wrap16, wrap8};

verus! {

/// The eight processor flags, unpacked.
///
/// The packed form is one byte: bit 7 is `negative`, then `overflow`,
/// `ignored`, `sbreak`, `decimal`, `interrupt`, `zero`, and bit 0 is `carry`.
#[derive(Clone, Copy, Debug, PartialEq, Eq, Structural)]
pub struct StatRegister {
    pub negative: bool,
    pub overflow: bool,
    pub ignored: bool,
    pub sbreak: bool,
    pub decimal: bool,
    pub interrupt: bool,
    pub zero: bool,
    pub carry: bool,
}

/// The byte whose bits, from bit 7 down to bit 0, are the eight given flags.
pub open spec fn pack_bits(
    b7: bool,
    b6: bool,
    b5: bool,
    b4: bool,
    b3: bool,
    b2: bool,
    b1: bool,
    b0: bool,
) -> u8 {
    (if b7 { 0x80u8 } else { 0u8 }) | (if b6 { 0x40u8 } else { 0u8 }) | (if b5 { 0x20u8 } else { 0u8 })
        | (if b4 { 0x10u8 } else { 0u8 }) | (if b3 { 0x08u8 } else { 0u8 }) | (if b2 { 0x04u8 } else { 0u8 })
        | (if b1 { 0x02u8 } else { 0u8 }) | (if b0 { 0x01u8 } else { 0u8 })
}

/// Whether the bits of `mask` are set in `byte`.
pub open spec fn has_bits(byte: u8, mask: u8) -> bool {
    byte & mask == mask
}

impl StatRegister {
    /// The flags that a status byte stands for.
    pub open spec fn unpack(byte: u8) -> StatRegister {
        StatRegister {
            negative: has_bits(byte, 0x80),
            overflow: has_bits(byte, 0x40),
            ignored: has_bits(byte, 0x20),
            sbreak: has_bits(byte, 0x10),
            decimal: has_bits(byte, 0x08),
            interrupt: has_bits(byte, 0x04),
            zero: has_bits(byte, 0x02),
            carry: has_bits(byte, 0x01),
        }
    }

    /// The status byte that stands for these flags.
    pub open spec fn pack(self) -> u8 {
        pack_bits(
            self.negative,
            self.overflow,
            self.ignored,
            self.sbreak,
            self.decimal,
            self.interrupt,
            self.zero,
            self.carry,
        )
    }

    /// Every flag clear.
    pub open spec fn cleared() -> StatRegister {
        StatRegister {
            negative: false,
            overflow: false,
            ignored: false,
            sbreak: false,
            decimal: false,
            interrupt: false,
            zero: false,
            carry: false,
        }
    }

    /// The flags with `negative` and `zero` taken from `value`, the rest kept.
    pub open spec fn with_nz(self, value: u8) -> StatRegister {
        StatRegister { negative: value >= 0x80, zero: value == 0, ..self }
    }
}

impl FromSpecImpl<u8> for StatRegister {
    open spec fn obeys_from_spec() -> bool {
        true
    }

    open spec fn from_spec(byte: u8) -> StatRegister {
        StatRegister::unpack(byte)
    }
}

impl From<u8> for StatRegister {
    /// Unpacks a status byte.
    fn from(byte: u8) -> (flags: StatRegister) {
        StatRegister {
            negative: byte & 0x80 == 0x80,
            overflow: byte & 0x40 == 0x40,
            ignored: byte & 0x20 == 0x20,
            sbreak: byte & 0x10 == 0x10,
            decimal: byte & 0x08 == 0x08,
            interrupt: byte & 0x04 == 0x04,
            zero: byte & 0x02 == 0x02,
            carry: byte & 0x01 == 0x01,
        }
    }
}

impl FromSpecImpl<StatRegister> for u8 {
    open spec fn obeys_from_spec() -> bool {
        true
    }

    open spec fn from_spec(statreg: StatRegister) -> u8 {
        statreg.pack()
    }
}

impl From<StatRegister> for u8 {
    /// Packs the flags into a status byte.
    fn from(statreg: StatRegister) -> (byte: u8) {
        (if statreg.negative { 0x80u8 } else { 0u8 }) | (if statreg.overflow { 0x40u8 } else { 0u8 })
            | (if statreg.ignored { 0x20u8 } else { 0u8 }) | (if statreg.sbreak { 0x10u8 } else { 0u8 })
            | (if statreg.decimal { 0x08u8 } else { 0u8 }) | (if statreg.interrupt { 0x04u8 } else { 0u8 })
            | (if statreg.zero { 0x02u8 } else { 0u8 }) | (if statreg.carry { 0x01u8 } else { 0u8 })
    }
}

/// The register file.
#[derive(Clone, Copy, Debug, PartialEq, Eq, Structural)]
pub struct Registers {
    /// Program counter.
    pub pc: u16,
    /// Accumulator.
    pub ac: u8,
    /// Index register X.
    pub x: u8,
    /// Index register Y.
    pub y: u8,
    /// Status flags.
    pub sr: StatRegister,
    /// Stack pointer.
    pub sp: u8,
}

impl Registers {
    /// The registers at power-on: everything zero, every flag clear.
    pub open spec fn power_on() -> Registers {
        Registers { pc: 0, ac: 0, x: 0, y: 0, sr: StatRegister::cleared(), sp: 0 }
    }

    /// These registers with the program counter moved by `delta`, modulo 65536.
    pub open spec fn moved(self, delta: int) -> Registers {
        Registers { pc: wrap16(self.pc + delta), ..self }
    }

    /// The registers at power-on.
    pub fn new() -> (registers: Registers)
        ensures
            registers == Registers::power_on(),
    {
        assert(StatRegister::unpack(0) == StatRegister::cleared()) by {
            assert(forall|mask: u8| mask != 0 ==> !#[trigger] has_bits(0, mask)) by {
                assert(forall|mask: u8| 0u8 & mask == 0) by (bit_vector);
            }
        }
        Registers { pc: 0, ac: 0, x: 0, y: 0, sr: StatRegister::from(0), sp: 0 }
    }

    /// Advances the program counter by one, wrapping, and returns its new value.
    pub fn increment_pc(&mut self) -> (pc: u16)
        ensures
            *final(self) == old(self).moved(1),
            pc == final(self).pc,
    {
        self.pc = self.pc.wrapping_add(1);
        self.pc
    }

    /// Advances the program counter by `amount`, wrapping, and returns its new value.
    pub fn increment_pc_by(&mut self, amount: u16) -> (pc: u16)
        ensures
            *final(self) == old(self).moved(amount as int),
            pc == final(self).pc,
    {
        self.pc = self.pc.wrapping_add(amount);
        self.pc
    }

    /// Moves the program counter back by one, wrapping, and returns its new value.
    pub fn decrement_pc(&mut self) -> (pc: u16)
        ensures
            *final(self) == old(self).moved(-1),
            pc == final(self).pc,
    {
        self.pc = self.pc.wrapping_sub(1);
        self.pc
    }
}

/// The machine as a mathematical value: the registers, the 65536 memory
/// cells, the 256 stack cells and the dispatch table.
pub struct Machine {
    pub registers: Registers,
    pub memory: Seq<u8>,
    pub stack: Seq<u8>,
    pub instructions: Seq<Instruction>,
}

impl Machine {
    /// Memory and stack have their fixed sizes.
    pub open spec fn wf(self) -> bool {
        self.memory.len() == 0x10000 && self.stack.len() == 0x100
    }

    /// The byte at `address`.
    pub open spec fn read(self, address: u16) -> u8 {
        self.memory[address as int]
    }

    /// The machine after `byte` is stored at `address`.
    pub open spec fn write(self, address: u16, byte: u8) -> Machine {
        Machine { memory: self.memory.update(address as int, byte), ..self }
    }

    /// The machine after `value` is pushed: it is stored at the stack pointer,
    /// which then moves up by one, modulo 256.
    pub open spec fn push(self, value: u8) -> Machine {
        Machine {
            registers: Registers { sp: wrap8(self.registers.sp + 1), ..self.registers },
            stack: self.stack.update(self.registers.sp as int, value),
            ..self
        }
    }

    /// The byte that a pull returns: the one below the stack pointer, modulo 256.
    pub open spec fn top(self) -> u8 {
        self.stack[wrap8(self.registers.sp - 1) as int]
    }

    /// The machine after a pull: the stack pointer moves down by one, modulo 256.
    pub open spec fn pulled(self) -> Machine {
        Machine { registers: Registers { sp: wrap8(self.registers.sp - 1), ..self.registers }, ..self }
    }

    /// The machine with other registers.
    pub open spec fn with_registers(self, registers: Registers) -> Machine {
        Machine { registers, ..self }
    }

    /// The machine with the program counter at `pc`.
    pub open spec fn with_pc(self, pc: u16) -> Machine {
        self.with_registers(Registers { pc, ..self.registers })
    }

    /// The machine with the program counter moved by `delta`, modulo 65536.
    pub open spec fn moved(self, delta: int) -> Machine {
        self.with_registers(self.registers.moved(delta))
    }

    /// The machine with other flags.
    pub open spec fn with_sr(self, sr: StatRegister) -> Machine {
        self.with_registers(Registers { sr, ..self.registers })
    }

    /// The machine with the carry flag as given.
    pub open spec fn with_carry(self, carry: bool) -> Machine {
        self.with_sr(StatRegister { carry, ..self.registers.sr })
    }

    /// The machine with `value` in the accumulator and the negative and zero
    /// flags taken from it.
    pub open spec fn with_ac(self, value: u8) -> Machine {
        self.with_registers(Registers { ac: value, ..self.registers }).with_nz(value)
    }

    /// The machine with `value` in X and the negative and zero flags taken
    /// from it.
    pub open spec fn with_x(self, value: u8) -> Machine {
        self.with_registers(Registers { x: value, ..self.registers }).with_nz(value)
    }

    /// The machine with `value` in Y and the negative and zero flags taken
    /// from it.
    pub open spec fn with_y(self, value: u8) -> Machine {
        self.with_registers(Registers { y: value, ..self.registers }).with_nz(value)
    }

    /// The machine with the negative and zero flags taken from `value`.
    pub open spec fn with_nz(self, value: u8) -> Machine {
        self.with_sr(self.registers.sr.with_nz(value))
    }

    /// The machine at power-on: registers zero, flags clear, the stack zero,
    /// every memory cell holding `MEMORY_FILL`, and the full dispatch table.
    pub open spec fn power_on() -> Machine {
        Machine {
            registers: Registers::power_on(),
            memory: Seq::new(0x10000, |a: int| MEMORY_FILL),
            stack: Seq::new(0x100, |i: int| 0u8),
            instructions: instruction_table(),
        }
    }
}

/// Why a step failed: the byte fetched at `address` answers to no instruction
/// of the dispatch table.
#[derive(Clone, Copy, Debug, PartialEq, Eq, Structural)]
pub struct UnknownOpcode {
    pub opcode: u8,
    pub address: u16,
}

impl Machine {
    /// What dispatching `opcode` gives. If no instruction of the table
    /// answers to it, the machine is unchanged and the failure names the
    /// opcode and the program counter. Otherwise the first instruction that
    /// answers runs, and if it completes normally the program counter moves
    /// on by one.
    pub open spec fn dispatched(self, opcode: u8) -> (Machine, Result<(), UnknownOpcode>) {
        match lookup(self.instructions, opcode) {
            None => (self, Err(UnknownOpcode { opcode, address: self.registers.pc })),
            Some(instruction) => {
                let (after, normal) = instruction.execute_spec(opcode, self);
                (
                    if normal {
                        after.moved(1)
                    } else {
                        after
                    },
                    Ok(()),
                )
            },
        }
    }

    /// What one step gives: the byte at the program counter is dispatched.
    pub open spec fn stepped(self) -> (Machine, Result<(), UnknownOpcode>) {
        self.dispatched(self.read(self.registers.pc))
    }

    /// What a run of at most `limit` steps gives: the machine steps until a
    /// step fails, which ends the run with that failure, or until `limit`
    /// steps are done.
    pub open spec fn ran(self, limit: nat) -> (Machine, Result<(), UnknownOpcode>)
        decreases limit,
    {
        if limit == 0 {
            (self, Ok(()))
        } else {
            let (next, outcome) = self.stepped();
            if outcome is Ok {
                next.ran((limit - 1) as nat)
            } else {
                (next, outcome)
            }
        }
    }
}

/// The byte that fills memory when a processor is created.
pub const MEMORY_FILL: u8 = 0xEA;

/// A processor: memory, stack, registers and the dispatch table.
pub struct CPU {
    pub memory: [u8; 0x10000],
    pub stack: [u8; 0x100],
    pub registers: Registers,
    pub instructions: Vec<Instruction>,
}

impl View for CPU {
    type V = Machine;

    open spec fn view(&self) -> Machine {
        Machine {
            registers: self.registers,
            memory: self.memory@,
            stack: self.stack@,
            instructions: self.instructions@,
        }
    }
}

impl CPU {
    /// A processor at power-on: registers zero, flags clear, the stack zero,
    /// every memory cell holding `MEMORY_FILL`, and the full dispatch table.
    pub fn new() -> (cpu: CPU)
        ensures
            cpu@ == Machine::power_on(),
    {
        let cpu = CPU {
            memory: [MEMORY_FILL; 0x10000],
            stack: [0; 0x100],
            registers: Registers::new(),
            instructions: init_instructions(),
        };
        assert(cpu@.memory =~= Machine::power_on().memory);
        assert(cpu@.stack =~= Machine::power_on().stack);
        cpu
    }

    /// Sets the negative and zero flags from `value`: negative is its bit 7,
    /// zero says whether it is zero.
    pub fn set_nz(&mut self, value: u8)
        ensures
            final(self)@ == old(self)@.with_nz(value),
    {
        assert(value & 0x80 == 0x80 <==> value >= 0x80) by (bit_vector);
        self.registers.sr.negative = value & 0x80 == 0x80;
        self.registers.sr.zero = value == 0;
    }

    /// Pushes `value`: stores it at the stack pointer, then moves the pointer up.
    pub fn push_to_stack(&mut self, value: u8)
        ensures
            final(self)@ == old(self)@.push(value),
    {
        self.stack[self.registers.sp as usize] = value;
        self.registers.sp = self.registers.sp.wrapping_add(1);
    }

    /// Pulls a byte: moves the stack pointer down, then reads at it.
    pub fn pull_from_stack(&mut self) -> (value: u8)
        ensures
            final(self)@ == old(self)@.pulled(),
            value == old(self)@.top(),
    {
        self.registers.sp = self.registers.sp.wrapping_sub(1);
        self.stack[self.registers.sp as usize]
    }

    /// Stores `byte` at `address`.
    pub fn set_memory_at_address(&mut self, address: u16, byte: u8)
        ensures
            final(self)@ == old(self)@.write(address, byte),
    {
        self.memory[address as usize] = byte;
    }

    /// The cell at `address`, widened.
    pub fn get_memory_at_address(&self, address: u16) -> (cell: i16)
        ensures
            cell == self@.read(address),
    {
        self.memory[address as usize] as i16
    }

    /// The byte at `address`.
    pub fn get_umemory_at_address(&self, address: u16) -> (byte: u8)
        ensures
            byte == self@.read(address),
    {
        self.memory[address as usize]
    }

    /// Dispatches `opcode`: finds the first instruction of the table that
    /// answers to it, runs it, and moves the program counter on by one if it
    /// completed normally. Fails, and changes nothing, if none answers.
    pub fn execute_instruction(&mut self, opcode: &u8) -> (outcome: Result<(), UnknownOpcode>)
        ensures
            (final(self)@, outcome) == old(self)@.dispatched(*opcode),
            outcome is Err <==> lookup(old(self)@.instructions, *opcode) is None,
    {
        match find_instruction(&self.instructions, *opcode) {
            None => Err(UnknownOpcode { opcode: *opcode, address: self.registers.pc }),
            Some(instruction) => {
                if instruction.execute(opcode, self) {
                    self.registers.increment_pc();
                }
                Ok(())
            },
        }
    }

    /// Runs one fetch-decode-execute cycle on the byte at the program counter.
    pub fn step(&mut self) -> (outcome: Result<(), UnknownOpcode>)
        ensures
            (final(self)@, outcome) == old(self)@.stepped(),
            outcome is Err <==> lookup(
                old(self)@.instructions,
                old(self)@.read(old(self)@.registers.pc),
            ) is None,
    {
        let opcode = self.get_umemory_at_address(self.registers.pc);
        self.execute_instruction(&opcode)
    }

    /// Steps until a step fails or `limit` steps are done. Returns the
    /// failure of the step that ended the run, if one did.
    pub fn run(&mut self, limit: u64) -> (outcome: Result<(), UnknownOpcode>)
        ensures
            (final(self)@, outcome) == old(self)@.ran(limit as nat),
    {
        let mut done: u64 = 0;
        while done < limit
            invariant
                done <= limit,
                self@.ran((limit - done) as nat) == old(self)@.ran(limit as nat),
            decreases limit - done,
        {
            let outcome = self.step();
            if outcome.is_err() {
                return outcome;
            }
            done += 1;
        }
        Ok(())
    }
}

} // verus!
