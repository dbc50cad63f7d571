//! What each instruction does, as a function on machines.

use vstd::prelude::*;

use crate::cpu::{has_bits, Machine, Registers, StatRegister};
use crate::instructions::{Instruction, Mode};
use crate::word::{signed, word, wrap16, wrap8};

verus! {

/// Where a break loads the program counter from: the word at this address.
pub const BREAK_VECTOR: u16 = 0xFFFE;

/// One if the flag is set, zero if not.
pub open spec fn bit_of(flag: bool) -> int {
    if flag {
        1
    } else {
        0
    }
}

impl Machine {
    /// The machine after a comparison of `register` with `operand`: carry says
    /// that the subtraction did not borrow, negative and zero are those of
    /// the difference modulo 256. No register changes.
    pub open spec fn compared(self, register: u8, operand: u8) -> Machine {
        self.with_carry(register >= operand).with_nz(wrap8(register - operand))
    }

    /// The machine after `operand` and the carry are added to the
    /// accumulator. The accumulator holds the sum modulo 256, with negative
    /// and zero taken from it; carry says that the sum passed 255; overflow
    /// says that the sum of the signed values left the range -128 to 127.
    pub open spec fn added(self, operand: u8) -> Machine {
        let r = self.registers;
        let sum = r.ac + operand + bit_of(r.sr.carry);
        let signed_sum = signed(r.ac) + signed(operand) + bit_of(r.sr.carry);
        self.with_sr(
            StatRegister { carry: sum > 0xFF, overflow: signed_sum < -128 || signed_sum > 127, ..r.sr },
        ).with_ac(wrap8(sum))
    }

    /// The machine after `operand` and the carry are subtracted from the
    /// accumulator. The accumulator holds the difference modulo 256, with
    /// negative and zero taken from it; carry says that the difference fell
    /// below zero; overflow says that the difference of the signed values left
    /// the range -128 to 127.
    pub open spec fn subtracted(self, operand: u8) -> Machine {
        let r = self.registers;
        let difference = r.ac - operand - bit_of(r.sr.carry);
        let signed_difference = signed(r.ac) - signed(operand) - bit_of(r.sr.carry);
        self.with_sr(
            StatRegister {
                carry: difference < 0,
                overflow: signed_difference < -128 || signed_difference > 127,
                ..r.sr
            },
        ).with_ac(wrap8(difference))
    }

    /// The machine after a bit test of `operand`: negative is its bit 7,
    /// overflow its bit 6, and zero says that it shares no bit with the
    /// accumulator.
    pub open spec fn bit_tested(self, operand: u8) -> Machine {
        self.with_sr(
            StatRegister {
                negative: has_bits(operand, 0x80),
                overflow: has_bits(operand, 0x40),
                zero: self.registers.ac & operand == 0,
                ..self.registers.sr
            },
        )
    }

    /// What a branch gives, with the program counter at its opcode. Taken, it
    /// puts the program counter at the byte after the offset byte, moved by
    /// the signed offset, and the instruction does not complete normally. Not
    /// taken, it consumes the offset byte and completes normally.
    pub open spec fn branched(self, taken: bool) -> (Machine, bool) {
        if taken {
            (self.with_pc(Mode::Relative.effective_address(self)), false)
        } else {
            (Mode::Relative.consumed(self), true)
        }
    }

    /// The machine after a word is pushed, high byte first.
    pub open spec fn push_word(self, w: u16) -> Machine {
        self.push((w / 0x100) as u8).push((w % 0x100) as u8)
    }

    /// The word that two pulls return, low byte first.
    pub open spec fn top_word(self) -> u16 {
        word(self.top(), self.pulled().top())
    }

    /// The machine after a call, with the program counter at the opcode: the
    /// two operand bytes are consumed, the address after them is pushed, and
    /// the program counter is at the address that they give.
    pub open spec fn called(self) -> Machine {
        let after = Mode::Absolute.consumed(self);
        after.push_word(wrap16(after.registers.pc + 1)).with_pc(self.operand_word())
    }

    /// The machine after a return: the program counter is the word pulled.
    pub open spec fn returned(self) -> Machine {
        self.pulled().pulled().with_pc(self.top_word())
    }

    /// The machine after a break, with the program counter at the opcode: the
    /// address two bytes on and the status byte are pushed, every flag but
    /// interrupt-disable is cleared, and the program counter is the word at
    /// `BREAK_VECTOR`.
    pub open spec fn interrupted(self) -> Machine {
        let r = self.registers;
        self.push_word(wrap16(r.pc + 2)).push(r.sr.pack()).with_sr(
            StatRegister { interrupt: r.sr.interrupt, ..StatRegister::cleared() },
        ).with_pc(self.read_word(BREAK_VECTOR))
    }

    /// The machine after a return from a break: the flags are the status
    /// byte pulled, and the program counter is the word pulled after it.
    pub open spec fn resumed(self) -> Machine {
        self.pulled().pulled().pulled().with_sr(StatRegister::unpack(self.top())).with_pc(
            self.pulled().top_word(),
        )
    }
}

impl Instruction {
    /// What a shift or rotate makes of `value`. A shift moves every bit one
    /// place and fills with zero; a rotate fills with the bit that left at
    /// the other end.
    pub open spec fn shift_result(self, value: u8) -> u8 {
        match self {
            Instruction::ASL => wrap8(2 * value),
            Instruction::LSR => value / 2,
            Instruction::ROL => (wrap8(2 * value) + value / 0x80) as u8,
            Instruction::ROR => (value / 2 + 0x80 * (value % 2)) as u8,
            _ => value,
        }
    }

    /// The bit that a shift or rotate moves out of `value`.
    pub open spec fn shift_carry(self, value: u8) -> bool {
        match self {
            Instruction::ASL | Instruction::ROL => value >= 0x80,
            Instruction::LSR | Instruction::ROR => value % 2 == 1,
            _ => false,
        }
    }

    /// The machine after a shift or rotate through `mode`. In `Accumulator`
    /// mode the accumulator is shifted; in any other the byte read through
    /// the mode is shifted and written back through it. Carry is the bit
    /// moved out; negative and zero are those of the result.
    pub open spec fn shifted(self, mode: Mode, m: Machine) -> Machine {
        if mode == Mode::Accumulator {
            let value = m.registers.ac;
            m.with_carry(self.shift_carry(value)).with_ac(self.shift_result(value))
        } else {
            let value = mode.operand_value(m);
            mode.written(m.with_carry(self.shift_carry(value)), self.shift_result(value))
        }
    }

    /// What the instruction does to machine `m`, whose program counter is at
    /// `opcode`: the machine afterwards, and whether the instruction
    /// completed normally, that is without placing the program counter
    /// itself. The operand is found by the addressing mode of `opcode`.
    pub open spec fn execute_spec(self, opcode: u8, m: Machine) -> (Machine, bool) {
        let mode = Mode::of_opcode(opcode);
        let operand = mode.operand_value(m);
        let after = mode.consumed(m);
        let r = m.registers;
        match self {
            Instruction::BRK => (m.interrupted(), false),
            Instruction::BPL => m.branched(!r.sr.negative),
            Instruction::JSR => (m.called(), false),
            Instruction::BMI => m.branched(r.sr.negative),
            Instruction::RTI => (m.resumed(), false),
            Instruction::BVC => m.branched(!r.sr.overflow),
            Instruction::RTS => (m.returned(), false),
            Instruction::BVS => m.branched(r.sr.overflow),
            Instruction::BCC => m.branched(!r.sr.carry),
            Instruction::LDY => (after.with_y(operand), true),
            Instruction::BCS => m.branched(r.sr.carry),
            Instruction::CPY => (after.compared(r.y, operand), true),
            Instruction::BNE => m.branched(!r.sr.zero),
            Instruction::CPX => (after.compared(r.x, operand), true),
            Instruction::BEQ => m.branched(r.sr.zero),
            Instruction::ORA => (after.with_ac(r.ac | operand), true),
            Instruction::AND => (after.with_ac(r.ac & operand), true),
            Instruction::EOR => (after.with_ac(r.ac ^ operand), true),
            Instruction::ADC => (after.added(operand), true),
            Instruction::STA => (mode.written(m, r.ac), true),
            Instruction::LDA => (after.with_ac(operand), true),
            Instruction::CMP => (after.compared(r.ac, operand), true),
            Instruction::SBC => (after.subtracted(operand), true),
            Instruction::LDX => (after.with_x(operand), true),
            Instruction::BIT => (after.bit_tested(operand), true),
            Instruction::STY => (mode.written(m, r.y), true),
            Instruction::ASL | Instruction::ROL | Instruction::LSR | Instruction::ROR => (
                self.shifted(mode, m),
                true,
            ),
            Instruction::STX => (mode.written(m, r.x), true),
            Instruction::DEC => (mode.written(m, wrap8(operand - 1)), true),
            Instruction::INC => (mode.written(m, wrap8(operand + 1)), true),
            Instruction::NOP => (m, true),
            Instruction::PHP => (m.push(r.sr.pack()), true),
            Instruction::CLC => (m.with_sr(StatRegister { carry: false, ..r.sr }), true),
            Instruction::PLP => (m.pulled().with_sr(StatRegister::unpack(m.top())), true),
            Instruction::SEC => (m.with_sr(StatRegister { carry: true, ..r.sr }), true),
            Instruction::PHA => (m.push(r.ac), true),
            Instruction::CLI => (m.with_sr(StatRegister { interrupt: false, ..r.sr }), true),
            Instruction::PLA => (m.pulled().with_ac(m.top()), true),
            Instruction::SEI => (m.with_sr(StatRegister { interrupt: true, ..r.sr }), true),
            Instruction::DEY => (m.with_y(wrap8(r.y - 1)), true),
            Instruction::TYA => (m.with_ac(r.y), true),
            Instruction::TAY => (m.with_y(r.ac), true),
            Instruction::CLV => (m.with_sr(StatRegister { overflow: false, ..r.sr }), true),
            Instruction::INY => (m.with_y(wrap8(r.y + 1)), true),
            Instruction::CLD => (m.with_sr(StatRegister { decimal: false, ..r.sr }), true),
            Instruction::INX => (m.with_x(wrap8(r.x + 1)), true),
            Instruction::SED => (m.with_sr(StatRegister { decimal: true, ..r.sr }), true),
            Instruction::TXA => (m.with_ac(r.x), true),
            Instruction::TXS => (m.with_registers(Registers { sp: r.x, ..r }), true),
            Instruction::TAX => (m.with_x(r.ac), true),
            Instruction::TSX => (m.with_x(r.sp), true),
            Instruction::DEX => (m.with_x(wrap8(r.x - 1)), true),
        }
    }
}

} // verus!
