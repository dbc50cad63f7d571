//! What holds of the machine model, whatever its state.

use vstd::prelude::*;

use crate::cpu::{has_bits, pack_bits, Machine, StatRegister, UnknownOpcode};
use crate::instructions::{
    answers_first, instruction_table, lookup, zero_page, Instruction, Mode,
};
use crate::semantics::BREAK_VECTOR;
use crate::word::{signed, word, wrap16, wrap8};

verus! {

/// Packing eight bits and testing each mask gives the bits back.
proof fn lemma_pack_then_test(
    b7: bool,
    b6: bool,
    b5: bool,
    b4: bool,
    b3: bool,
    b2: bool,
    b1: bool,
    b0: bool,
)
    ensures
        has_bits(pack_bits(b7, b6, b5, b4, b3, b2, b1, b0), 0x80) == b7,
        has_bits(pack_bits(b7, b6, b5, b4, b3, b2, b1, b0), 0x40) == b6,
        has_bits(pack_bits(b7, b6, b5, b4, b3, b2, b1, b0), 0x20) == b5,
        has_bits(pack_bits(b7, b6, b5, b4, b3, b2, b1, b0), 0x10) == b4,
        has_bits(pack_bits(b7, b6, b5, b4, b3, b2, b1, b0), 0x08) == b3,
        has_bits(pack_bits(b7, b6, b5, b4, b3, b2, b1, b0), 0x04) == b2,
        has_bits(pack_bits(b7, b6, b5, b4, b3, b2, b1, b0), 0x02) == b1,
        has_bits(pack_bits(b7, b6, b5, b4, b3, b2, b1, b0), 0x01) == b0,
{
    let byte = pack_bits(b7, b6, b5, b4, b3, b2, b1, b0);
    assert(byte & 0x80 == 0x80 <==> b7) by (bit_vector)
        requires
            byte == pack_bits(b7, b6, b5, b4, b3, b2, b1, b0),
    ;
    assert(byte & 0x40 == 0x40 <==> b6) by (bit_vector)
        requires
            byte == pack_bits(b7, b6, b5, b4, b3, b2, b1, b0),
    ;
    assert(byte & 0x20 == 0x20 <==> b5) by (bit_vector)
        requires
            byte == pack_bits(b7, b6, b5, b4, b3, b2, b1, b0),
    ;
    assert(byte & 0x10 == 0x10 <==> b4) by (bit_vector)
        requires
            byte == pack_bits(b7, b6, b5, b4, b3, b2, b1, b0),
    ;
    assert(byte & 0x08 == 0x08 <==> b3) by (bit_vector)
        requires
            byte == pack_bits(b7, b6, b5, b4, b3, b2, b1, b0),
    ;
    assert(byte & 0x04 == 0x04 <==> b2) by (bit_vector)
        requires
            byte == pack_bits(b7, b6, b5, b4, b3, b2, b1, b0),
    ;
    assert(byte & 0x02 == 0x02 <==> b1) by (bit_vector)
        requires
            byte == pack_bits(b7, b6, b5, b4, b3, b2, b1, b0),
    ;
    assert(byte & 0x01 == 0x01 <==> b0) by (bit_vector)
        requires
            byte == pack_bits(b7, b6, b5, b4, b3, b2, b1, b0),
    ;
}

/// Unpacking a status byte and packing the flags again gives the byte back.
pub proof fn status_byte_round_trip(byte: u8)
    ensures
        StatRegister::unpack(byte).pack() == byte,
{
    assert(pack_bits(
        byte & 0x80 == 0x80,
        byte & 0x40 == 0x40,
        byte & 0x20 == 0x20,
        byte & 0x10 == 0x10,
        byte & 0x08 == 0x08,
        byte & 0x04 == 0x04,
        byte & 0x02 == 0x02,
        byte & 0x01 == 0x01,
    ) == byte) by (bit_vector);
}

/// Packing flags and unpacking the byte again gives the flags back.
pub proof fn status_flags_round_trip(flags: StatRegister)
    ensures
        StatRegister::unpack(flags.pack()) == flags,
{
    lemma_pack_then_test(
        flags.negative,
        flags.overflow,
        flags.ignored,
        flags.sbreak,
        flags.decimal,
        flags.interrupt,
        flags.zero,
        flags.carry,
    );
}

/// The negative flag that a value gives is its bit 7, and the zero flag
/// says whether the value is zero.
pub proof fn negative_is_bit_seven(flags: StatRegister, value: u8)
    ensures
        flags.with_nz(value).negative == has_bits(value, 0x80),
        flags.with_nz(value).zero == (value == 0),
{
    assert(value & 0x80 == 0x80 <==> value >= 0x80) by (bit_vector);
}

/// A byte written to memory is the byte then read at that address, and
/// every other address reads as before.
pub proof fn write_then_read(m: Machine, address: u16, value: u8, other: u16)
    requires
        m.wf(),
    ensures
        m.write(address, value).wf(),
        m.write(address, value).read(address) == value,
        other != address ==> m.write(address, value).read(other) == m.read(other),
{
}

/// A byte pushed is the byte then pulled, and the pull puts the stack
/// pointer back where it was.
pub proof fn push_then_pull(m: Machine, value: u8)
    requires
        m.wf(),
    ensures
        m.push(value).wf(),
        m.push(value).top() == value,
        m.push(value).pulled().registers == m.registers,
{
}

/// The stack pointer wraps in both directions: a push at 0xFF leaves it at
/// zero, a pull at zero leaves it at 0xFF; in between it moves by one.
pub proof fn stack_pointer_wraps(m: Machine, value: u8)
    ensures
        m.push(value).registers.sp == if m.registers.sp == 0xFF {
            0
        } else {
            m.registers.sp + 1
        },
        m.pulled().registers.sp == if m.registers.sp == 0 {
            0xFF
        } else {
            m.registers.sp - 1
        },
{
}

/// The program counter wraps in both directions.
pub proof fn program_counter_wraps(m: Machine)
    ensures
        m.moved(1).registers.pc == if m.registers.pc == 0xFFFF {
            0
        } else {
            m.registers.pc + 1
        },
        m.moved(-1).registers.pc == if m.registers.pc == 0 {
            0xFFFF
        } else {
            m.registers.pc - 1
        },
        m.moved(1).moved(-1) == m,
        m.moved(2).moved(-2) == m,
{
}

/// Whatever the operand and the index, a zero-page address is below 0x100.
pub proof fn zero_page_is_below_256(operand: u16, index: u8)
    ensures
        zero_page(operand, index) < 0x100,
{
}

/// The zero-page modes resolve to an address below 0x100 on every machine.
pub proof fn zero_page_modes_stay_in_zero_page(mode: Mode, m: Machine)
    requires
        mode == Mode::Zeropage || mode == Mode::ZeropageX || mode == Mode::ZeropageY,
    ensures
        mode.effective_address(m) < 0x100,
{
}

/// A read and a write through the same mode consume the same operand bytes
/// and find the same address.
pub proof fn read_and_write_agree(mode: Mode, m: Machine, value: u8)
    requires
        m.wf(),
    ensures
        mode.written(m, value).registers.pc == mode.consumed(m).registers.pc,
        mode.consumed(m).registers.pc == wrap16(m.registers.pc + mode.operand_len()),
        mode.written(m, value).read(mode.effective_address(m)) == value,
        mode.consumed(m).moved(-mode.operand_len()) == m,
{
}

/// After an arithmetic or logic instruction the negative flag is bit 7 of
/// the accumulator and the zero flag says whether the accumulator is zero.
pub proof fn arithmetic_sets_negative_and_zero(instruction: Instruction, opcode: u8, m: Machine)
    requires
        instruction == Instruction::ADC || instruction == Instruction::SBC || instruction
            == Instruction::AND || instruction == Instruction::ORA || instruction == Instruction::EOR,
    ensures
        ({
            let (after, normal) = instruction.execute_spec(opcode, m);
            &&& normal
            &&& after.registers.sr.negative == has_bits(after.registers.ac, 0x80)
            &&& after.registers.sr.zero == (after.registers.ac == 0)
        }),
{
    let after = instruction.execute_spec(opcode, m).0;
    negative_is_bit_seven(after.registers.sr, after.registers.ac);
}

/// After a load, a transfer into a register other than the stack pointer, a
/// pull of the accumulator or a step of X or Y, the negative flag is bit 7
/// of the register that received the value and the zero flag says whether
/// that register is zero.
pub proof fn register_results_set_negative_and_zero(instruction: Instruction, opcode: u8, m: Machine)
    ensures
        ({
            let after = instruction.execute_spec(opcode, m).0;
            let result = after.registers;
            &&& (instruction == Instruction::LDA || instruction == Instruction::TXA || instruction
                == Instruction::TYA || instruction == Instruction::PLA) ==> {
                &&& result.sr.negative == has_bits(result.ac, 0x80)
                &&& result.sr.zero == (result.ac == 0)
            }
            &&& (instruction == Instruction::LDX || instruction == Instruction::TAX || instruction
                == Instruction::TSX || instruction == Instruction::INX || instruction
                == Instruction::DEX) ==> {
                &&& result.sr.negative == has_bits(result.x, 0x80)
                &&& result.sr.zero == (result.x == 0)
            }
            &&& (instruction == Instruction::LDY || instruction == Instruction::TAY || instruction
                == Instruction::INY || instruction == Instruction::DEY) ==> {
                &&& result.sr.negative == has_bits(result.y, 0x80)
                &&& result.sr.zero == (result.y == 0)
            }
        }),
{
    let result = instruction.execute_spec(opcode, m).0.registers;
    negative_is_bit_seven(result.sr, result.ac);
    negative_is_bit_seven(result.sr, result.x);
    negative_is_bit_seven(result.sr, result.y);
}

/// A comparison leaves every register as it was; the zero flag says that
/// register and operand are equal, the carry flag that the register is not
/// below the operand, and the negative flag is bit 7 of their difference
/// modulo 256.
pub proof fn comparison_flags(m: Machine, register: u8, operand: u8)
    ensures
        ({
            let after = m.compared(register, operand).registers;
            &&& after.sr.zero == (register == operand)
            &&& after.sr.carry == (register >= operand)
            &&& after.sr.negative == has_bits(wrap8(register - operand), 0x80)
            &&& after.ac == m.registers.ac
            &&& after.x == m.registers.x
            &&& after.y == m.registers.y
            &&& after.sp == m.registers.sp
            &&& after.pc == m.registers.pc
        }),
{
    negative_is_bit_seven(m.registers.sr, wrap8(register - operand));
}

/// A branch whose offset byte is 0xFE, that is -2, lands on its own opcode
/// when it is taken, and leaves the machine as it was.
pub proof fn branch_by_minus_two_is_a_loop(m: Machine)
    requires
        m.first_operand() == 0xFE,
    ensures
        m.branched(true) == (m, false),
        m.branched(false) == (m.moved(1), true),
{
}

/// A taken branch moves the program counter to the byte after the offset
/// byte, plus the signed offset; one not taken moves it to the offset byte.
pub proof fn branch_displacement(m: Machine)
    ensures
        m.branched(true).0.registers.pc == wrap16(m.registers.pc + 2 + signed(m.first_operand())),
        m.branched(false).0.registers.pc == wrap16(m.registers.pc + 1),
        -128 <= signed(m.first_operand()) <= 127,
{
}

/// The two bytes that a word is pushed as are the word that is pulled.
pub proof fn push_word_then_pull(m: Machine, w: u16)
    requires
        m.wf(),
    ensures
        m.push_word(w).wf(),
        m.push_word(w).top_word() == w,
        m.push_word(w).pulled().pulled().registers == m.registers,
        m.push_word(w).memory == m.memory,
{
    let high = (w / 0x100) as u8;
    let low = (w % 0x100) as u8;
    let first = m.push(high);
    let second = first.push(low);
    assert(second.top() == low);
    assert(second.pulled().top() == high);
    assert(word(low, high) == w);
}

/// A call followed by a return resumes at the instruction after the call:
/// three bytes past its opcode, whatever the program counter was. The stack
/// pointer is back where it was and memory is untouched; neither
/// instruction completes normally, so neither has the program counter
/// advanced further.
pub proof fn call_then_return(m: Machine, call_opcode: u8, return_opcode: u8)
    requires
        m.wf(),
    ensures
        ({
            let (called, call_normal) = Instruction::JSR.execute_spec(call_opcode, m);
            let (returned, return_normal) = Instruction::RTS.execute_spec(return_opcode, called);
            &&& !call_normal
            &&& !return_normal
            &&& called.registers.pc == m.operand_word()
            &&& returned.registers == m.registers.moved(3)
            &&& returned.memory == m.memory
        }),
{
    let after = Mode::Absolute.consumed(m);
    let return_address = wrap16(after.registers.pc + 1);
    assert(return_address == wrap16(m.registers.pc + 3));
    push_word_then_pull(after, return_address);
    let pushed = after.push_word(return_address);
    let called = pushed.with_pc(m.operand_word());
    assert(called.top_word() == pushed.top_word());
    assert(called.pulled().pulled().registers.sp == m.registers.sp);
}

/// A break followed by a return from it resumes two bytes past the break's
/// opcode with the flags that were set before the break. The stack pointer
/// is back where it was and memory is untouched.
pub proof fn break_then_resume(m: Machine, break_opcode: u8, resume_opcode: u8)
    requires
        m.wf(),
    ensures
        ({
            let (broken, break_normal) = Instruction::BRK.execute_spec(break_opcode, m);
            let (resumed, resume_normal) = Instruction::RTI.execute_spec(resume_opcode, broken);
            &&& !break_normal
            &&& !resume_normal
            &&& broken.registers.pc == m.read_word(BREAK_VECTOR)
            &&& broken.registers.sr.interrupt == m.registers.sr.interrupt
            &&& resumed.registers == m.registers.moved(2)
            &&& resumed.memory == m.memory
        }),
{
    let return_address = wrap16(m.registers.pc + 2);
    let status = m.registers.sr.pack();
    push_word_then_pull(m, return_address);
    status_flags_round_trip(m.registers.sr);
    let pushed = m.push_word(return_address);
    push_then_pull(pushed, status);
    let broken = m.interrupted();
    assert(broken.top() == status);
    assert(broken.pulled().top_word() == return_address);
    assert(broken.pulled().pulled().pulled().registers.sp == m.registers.sp);
}

/// A write through a mode sets the negative flag to bit 7 of the byte
/// written and the zero flag to whether that byte is zero; the byte is then
/// the one read at the effective address.
pub proof fn written_sets_negative_and_zero(mode: Mode, m: Machine, value: u8)
    requires
        m.wf(),
    ensures
        ({
            let after = mode.written(m, value);
            &&& after.read(mode.effective_address(m)) == value
            &&& after.registers.sr.negative == has_bits(value, 0x80)
            &&& after.registers.sr.zero == (value == 0)
        }),
{
    negative_is_bit_seven(m.registers.sr, value);
}

/// After a shift or rotate the carry flag is the bit moved out, and the
/// negative and zero flags are those of the result: of the accumulator in
/// accumulator mode, of the byte at the effective address otherwise.
pub proof fn shift_sets_carry_negative_and_zero(instruction: Instruction, mode: Mode, m: Machine)
    requires
        m.wf(),
    ensures
        ({
            let after = instruction.shifted(mode, m);
            let source = if mode == Mode::Accumulator {
                m.registers.ac
            } else {
                mode.operand_value(m)
            };
            let result = if mode == Mode::Accumulator {
                after.registers.ac
            } else {
                after.read(mode.effective_address(m))
            };
            &&& result == instruction.shift_result(source)
            &&& after.registers.sr.carry == instruction.shift_carry(source)
            &&& after.registers.sr.negative == has_bits(result, 0x80)
            &&& after.registers.sr.zero == (result == 0)
        }),
{
    if mode == Mode::Accumulator {
        let value = m.registers.ac;
        negative_is_bit_seven(m.registers.sr, instruction.shift_result(value));
    } else {
        let value = mode.operand_value(m);
        let carried = m.with_carry(instruction.shift_carry(value));
        assert(mode.effective_address(carried) == mode.effective_address(m));
        written_sets_negative_and_zero(mode, carried, instruction.shift_result(value));
    }
}

/// A left shift moves bit 7 out and a right shift bit 0; a rotate puts the
/// bit moved out back in at the other end.
pub proof fn shift_bits(value: u8)
    ensures
        Instruction::ASL.shift_result(value) == value << 1,
        Instruction::LSR.shift_result(value) == value >> 1,
        Instruction::ROL.shift_result(value) == (value << 1) | (value >> 7),
        Instruction::ROR.shift_result(value) == (value >> 1) | (value << 7),
        Instruction::ASL.shift_carry(value) == has_bits(value, 0x80),
        Instruction::ROL.shift_carry(value) == has_bits(value, 0x80),
        Instruction::LSR.shift_carry(value) == has_bits(value, 0x01),
        Instruction::ROR.shift_carry(value) == has_bits(value, 0x01),
{
    assert(value << 1 == (2 * value) % 0x100) by (bit_vector);
    assert(value >> 1 == value / 2) by (bit_vector);
    assert((value << 1) | (value >> 7) == (2 * value) % 0x100 + value / 0x80) by (bit_vector);
    assert((value >> 1) | (value << 7) == value / 2 + 0x80 * (value % 2)) by (bit_vector);
    assert(value & 0x80 == 0x80 <==> value >= 0x80) by (bit_vector);
    assert(value & 0x01 == 0x01 <==> value % 2 == 1) by (bit_vector);
}

/// The instruction that owns `opcode` in the full table, if any.
spec fn owner(opcode: u8) -> Option<Instruction> {
    match opcode {
        0x00 => Some(Instruction::BRK),
        0x10 => Some(Instruction::BPL),
        0x20 => Some(Instruction::JSR),
        0x30 => Some(Instruction::BMI),
        0x40 => Some(Instruction::RTI),
        0x50 => Some(Instruction::BVC),
        0x60 => Some(Instruction::RTS),
        0x70 => Some(Instruction::BVS),
        0x90 => Some(Instruction::BCC),
        0xA0 | 0xA4 | 0xAC | 0xB4 | 0xBC => Some(Instruction::LDY),
        0xB0 => Some(Instruction::BCS),
        0xC0 | 0xC4 | 0xCC => Some(Instruction::CPY),
        0xD0 => Some(Instruction::BNE),
        0xE0 | 0xE4 => Some(Instruction::CPX),
        0xF0 => Some(Instruction::BEQ),
        0x01 | 0x05 | 0x09 | 0x0D | 0x11 | 0x15 | 0x19 | 0x1D => Some(Instruction::ORA),
        0x21 | 0x25 | 0x29 | 0x2D | 0x31 | 0x35 | 0x39 | 0x3D => Some(Instruction::AND),
        0x41 | 0x45 | 0x49 | 0x4D | 0x51 | 0x55 | 0x59 | 0x5D => Some(Instruction::EOR),
        0x61 | 0x65 | 0x69 | 0x6D | 0x71 | 0x75 | 0x79 | 0x7D => Some(Instruction::ADC),
        0x81 | 0x85 | 0x8D | 0x91 | 0x95 | 0x99 | 0x9D => Some(Instruction::STA),
        0xA1 | 0xA5 | 0xA9 | 0xAD | 0xB1 | 0xB5 | 0xB9 | 0xBD => Some(Instruction::LDA),
        0xC1 | 0xC5 | 0xC9 | 0xCD | 0xD1 | 0xD5 | 0xD9 | 0xDD => Some(Instruction::CMP),
        0xE1 | 0xE5 | 0xE9 | 0xED | 0xF1 | 0xF5 | 0xF9 | 0xFD => Some(Instruction::SBC),
        0xA2 | 0xA6 | 0xAE | 0xB6 | 0xBE => Some(Instruction::LDX),
        0x24 | 0x2C => Some(Instruction::BIT),
        0x84 | 0x8C | 0x94 => Some(Instruction::STY),
        0x06 | 0x0A | 0x0E | 0x16 | 0x1E => Some(Instruction::ASL),
        0x26 | 0x2A | 0x2E | 0x36 | 0x3E => Some(Instruction::ROL),
        0x46 | 0x4A | 0x4E | 0x56 | 0x5E => Some(Instruction::LSR),
        0x66 | 0x6A | 0x6E | 0x76 | 0x7E => Some(Instruction::ROR),
        0x86 | 0x8E | 0x96 => Some(Instruction::STX),
        0xC6 | 0xCE | 0xD6 | 0xDE => Some(Instruction::DEC),
        0xE6 | 0xEE | 0xF6 | 0xFE => Some(Instruction::INC),
        0xEA => Some(Instruction::NOP),
        0x08 => Some(Instruction::PHP),
        0x18 => Some(Instruction::CLC),
        0x28 => Some(Instruction::PLP),
        0x38 => Some(Instruction::SEC),
        0x48 => Some(Instruction::PHA),
        0x58 => Some(Instruction::CLI),
        0x68 => Some(Instruction::PLA),
        0x78 => Some(Instruction::SEI),
        0x88 => Some(Instruction::DEY),
        0x98 => Some(Instruction::TYA),
        0xA8 => Some(Instruction::TAY),
        0xB8 => Some(Instruction::CLV),
        0xC8 => Some(Instruction::INY),
        0xD8 => Some(Instruction::CLD),
        0xE8 => Some(Instruction::INX),
        0xF8 => Some(Instruction::SED),
        0x8A => Some(Instruction::TXA),
        0x9A => Some(Instruction::TXS),
        0xAA => Some(Instruction::TAX),
        0xBA => Some(Instruction::TSX),
        0xCA => Some(Instruction::DEX),
        _ => None,
    }
}

/// Where an instruction stands in the full table.
spec fn position(instruction: Instruction) -> int {
    match instruction {
        Instruction::BRK => 0,
        Instruction::BPL => 1,
        Instruction::JSR => 2,
        Instruction::BMI => 3,
        Instruction::RTI => 4,
        Instruction::BVC => 5,
        Instruction::RTS => 6,
        Instruction::BVS => 7,
        Instruction::BCC => 8,
        Instruction::LDY => 9,
        Instruction::BCS => 10,
        Instruction::CPY => 11,
        Instruction::BNE => 12,
        Instruction::CPX => 13,
        Instruction::BEQ => 14,
        Instruction::ORA => 15,
        Instruction::AND => 16,
        Instruction::EOR => 17,
        Instruction::ADC => 18,
        Instruction::STA => 19,
        Instruction::LDA => 20,
        Instruction::CMP => 21,
        Instruction::SBC => 22,
        Instruction::LDX => 23,
        Instruction::BIT => 24,
        Instruction::STY => 25,
        Instruction::ASL => 26,
        Instruction::ROL => 27,
        Instruction::LSR => 28,
        Instruction::ROR => 29,
        Instruction::STX => 30,
        Instruction::DEC => 31,
        Instruction::INC => 32,
        Instruction::NOP => 33,
        Instruction::PHP => 34,
        Instruction::CLC => 35,
        Instruction::PLP => 36,
        Instruction::SEC => 37,
        Instruction::PHA => 38,
        Instruction::CLI => 39,
        Instruction::PLA => 40,
        Instruction::SEI => 41,
        Instruction::DEY => 42,
        Instruction::TYA => 43,
        Instruction::TAY => 44,
        Instruction::CLV => 45,
        Instruction::INY => 46,
        Instruction::CLD => 47,
        Instruction::INX => 48,
        Instruction::SED => 49,
        Instruction::TXA => 50,
        Instruction::TXS => 51,
        Instruction::TAX => 52,
        Instruction::TSX => 53,
        Instruction::DEX => 54,
    }
}

/// An instruction answers to exactly the opcodes that it owns.
proof fn lemma_handles_iff_owner(instruction: Instruction, opcode: u8)
    ensures
        instruction.handles(opcode) <==> owner(opcode) == Some(instruction),
{
    match instruction {
        Instruction::BRK => {
            assert(Instruction::BRK.opcodes()[0] == 0x00);
        },
        Instruction::BPL => {
            assert(Instruction::BPL.opcodes()[0] == 0x10);
        },
        Instruction::JSR => {
            assert(Instruction::JSR.opcodes()[0] == 0x20);
        },
        Instruction::BMI => {
            assert(Instruction::BMI.opcodes()[0] == 0x30);
        },
        Instruction::RTI => {
            assert(Instruction::RTI.opcodes()[0] == 0x40);
        },
        Instruction::BVC => {
            assert(Instruction::BVC.opcodes()[0] == 0x50);
        },
        Instruction::RTS => {
            assert(Instruction::RTS.opcodes()[0] == 0x60);
        },
        Instruction::BVS => {
            assert(Instruction::BVS.opcodes()[0] == 0x70);
        },
        Instruction::BCC => {
            assert(Instruction::BCC.opcodes()[0] == 0x90);
        },
        Instruction::LDY => {
            assert(Instruction::LDY.handles(opcode) <==> owner(opcode) == Some(Instruction::LDY));
        },
        Instruction::BCS => {
            assert(Instruction::BCS.opcodes()[0] == 0xB0);
        },
        Instruction::CPY => {
            assert(Instruction::CPY.handles(opcode) <==> owner(opcode) == Some(Instruction::CPY));
        },
        Instruction::BNE => {
            assert(Instruction::BNE.opcodes()[0] == 0xD0);
        },
        Instruction::CPX => {
            assert(Instruction::CPX.handles(opcode) <==> owner(opcode) == Some(Instruction::CPX));
        },
        Instruction::BEQ => {
            assert(Instruction::BEQ.opcodes()[0] == 0xF0);
        },
        Instruction::ORA => {
            assert(Instruction::ORA.handles(opcode) <==> owner(opcode) == Some(Instruction::ORA));
        },
        Instruction::AND => {
            assert(Instruction::AND.handles(opcode) <==> owner(opcode) == Some(Instruction::AND));
        },
        Instruction::EOR => {
            assert(Instruction::EOR.handles(opcode) <==> owner(opcode) == Some(Instruction::EOR));
        },
        Instruction::ADC => {
            assert(Instruction::ADC.handles(opcode) <==> owner(opcode) == Some(Instruction::ADC));
        },
        Instruction::STA => {
            assert(Instruction::STA.handles(opcode) <==> owner(opcode) == Some(Instruction::STA));
        },
        Instruction::LDA => {
            assert(Instruction::LDA.handles(opcode) <==> owner(opcode) == Some(Instruction::LDA));
        },
        Instruction::CMP => {
            assert(Instruction::CMP.handles(opcode) <==> owner(opcode) == Some(Instruction::CMP));
        },
        Instruction::SBC => {
            assert(Instruction::SBC.handles(opcode) <==> owner(opcode) == Some(Instruction::SBC));
        },
        Instruction::LDX => {
            assert(Instruction::LDX.handles(opcode) <==> owner(opcode) == Some(Instruction::LDX));
        },
        Instruction::BIT => {
            assert(Instruction::BIT.handles(opcode) <==> owner(opcode) == Some(Instruction::BIT));
        },
        Instruction::STY => {
            assert(Instruction::STY.handles(opcode) <==> owner(opcode) == Some(Instruction::STY));
        },
        Instruction::ASL => {
            assert(Instruction::ASL.handles(opcode) <==> owner(opcode) == Some(Instruction::ASL));
        },
        Instruction::ROL => {
            assert(Instruction::ROL.handles(opcode) <==> owner(opcode) == Some(Instruction::ROL));
        },
        Instruction::LSR => {
            assert(Instruction::LSR.handles(opcode) <==> owner(opcode) == Some(Instruction::LSR));
        },
        Instruction::ROR => {
            assert(Instruction::ROR.handles(opcode) <==> owner(opcode) == Some(Instruction::ROR));
        },
        Instruction::STX => {
            assert(Instruction::STX.handles(opcode) <==> owner(opcode) == Some(Instruction::STX));
        },
        Instruction::DEC => {
            assert(Instruction::DEC.handles(opcode) <==> owner(opcode) == Some(Instruction::DEC));
        },
        Instruction::INC => {
            assert(Instruction::INC.handles(opcode) <==> owner(opcode) == Some(Instruction::INC));
        },
        Instruction::NOP => {
            assert(Instruction::NOP.opcodes()[0] == 0xEA);
        },
        Instruction::PHP => {
            assert(Instruction::PHP.opcodes()[0] == 0x08);
        },
        Instruction::CLC => {
            assert(Instruction::CLC.opcodes()[0] == 0x18);
        },
        Instruction::PLP => {
            assert(Instruction::PLP.opcodes()[0] == 0x28);
        },
        Instruction::SEC => {
            assert(Instruction::SEC.opcodes()[0] == 0x38);
        },
        Instruction::PHA => {
            assert(Instruction::PHA.opcodes()[0] == 0x48);
        },
        Instruction::CLI => {
            assert(Instruction::CLI.opcodes()[0] == 0x58);
        },
        Instruction::PLA => {
            assert(Instruction::PLA.opcodes()[0] == 0x68);
        },
        Instruction::SEI => {
            assert(Instruction::SEI.opcodes()[0] == 0x78);
        },
        Instruction::DEY => {
            assert(Instruction::DEY.opcodes()[0] == 0x88);
        },
        Instruction::TYA => {
            assert(Instruction::TYA.opcodes()[0] == 0x98);
        },
        Instruction::TAY => {
            assert(Instruction::TAY.opcodes()[0] == 0xA8);
        },
        Instruction::CLV => {
            assert(Instruction::CLV.opcodes()[0] == 0xB8);
        },
        Instruction::INY => {
            assert(Instruction::INY.opcodes()[0] == 0xC8);
        },
        Instruction::CLD => {
            assert(Instruction::CLD.opcodes()[0] == 0xD8);
        },
        Instruction::INX => {
            assert(Instruction::INX.opcodes()[0] == 0xE8);
        },
        Instruction::SED => {
            assert(Instruction::SED.opcodes()[0] == 0xF8);
        },
        Instruction::TXA => {
            assert(Instruction::TXA.opcodes()[0] == 0x8A);
        },
        Instruction::TXS => {
            assert(Instruction::TXS.opcodes()[0] == 0x9A);
        },
        Instruction::TAX => {
            assert(Instruction::TAX.opcodes()[0] == 0xAA);
        },
        Instruction::TSX => {
            assert(Instruction::TSX.opcodes()[0] == 0xBA);
        },
        Instruction::DEX => {
            assert(Instruction::DEX.opcodes()[0] == 0xCA);
        },
    }
}

/// Every instruction stands in the full table, at its position.
proof fn lemma_position(instruction: Instruction)
    ensures
        0 <= position(instruction) < instruction_table().len(),
        instruction_table()[position(instruction)] == instruction,
{
}

/// A lookup in the full table finds an instruction exactly when it answers
/// to the opcode. So no opcode is answered by two instructions, and the
/// order of the table decides nothing.
pub proof fn full_table_lookup(instruction: Instruction, opcode: u8)
    ensures
        lookup(instruction_table(), opcode) == Some(instruction) <==> instruction.handles(opcode),
{
    let table = instruction_table();
    lemma_handles_iff_owner(instruction, opcode);
    match lookup(table, opcode) {
        Some(found) => {
            lemma_handles_iff_owner(found, opcode);
        },
        None => {
            if instruction.handles(opcode) {
                lemma_position(instruction);
                lemma_first_answer(table, opcode, position(instruction));
            }
        },
    }
}

/// If an entry of a table answers to an opcode, some entry answers first.
proof fn lemma_first_answer(table: Seq<Instruction>, opcode: u8, index: int)
    requires
        0 <= index < table.len(),
        table[index].handles(opcode),
    ensures
        exists|first: int| answers_first(table, opcode, first),
    decreases index,
{
    if exists|earlier: int| 0 <= earlier < index && (#[trigger] table[earlier]).handles(opcode) {
        let earlier = choose|earlier: int| 0 <= earlier < index && (#[trigger] table[earlier]).handles(opcode);
        lemma_first_answer(table, opcode, earlier);
    } else {
        assert(answers_first(table, opcode, index));
    }
}

/// One step of a machine that holds the full table runs the instruction
/// that answers to the byte at the program counter, and then moves the
/// program counter on by one if the instruction completed normally.
pub proof fn step_runs_the_answering_instruction(m: Machine, instruction: Instruction)
    requires
        m.instructions == instruction_table(),
        instruction.handles(m.read(m.registers.pc)),
    ensures
        ({
            let (after, normal) = instruction.execute_spec(m.read(m.registers.pc), m);
            m.stepped() == (
                if normal {
                    after.moved(1)
                } else {
                    after
                },
                Ok::<(), UnknownOpcode>(()),
            )
        }),
{
    full_table_lookup(instruction, m.read(m.registers.pc));
}

/// A step fails exactly when no instruction of the table answers to the
/// byte at the program counter; it then changes nothing and names that
/// byte and its address.
pub proof fn step_fails_on_unknown_opcode(m: Machine)
    ensures
        m.stepped().1 is Err <==> lookup(m.instructions, m.read(m.registers.pc)) is None,
        m.stepped().1 is Err ==> m.stepped() == (
            m,
            Err::<(), UnknownOpcode>(
                UnknownOpcode { opcode: m.read(m.registers.pc), address: m.registers.pc },
            ),
        ),
{
}

/// A machine at a BEQ whose offset byte is 0xFE, with the zero flag set,
/// steps in place: the step changes nothing, and neither does any run.
pub proof fn beq_to_itself_loops(m: Machine, limit: nat)
    requires
        m.instructions == instruction_table(),
        m.read(m.registers.pc) == 0xF0,
        m.first_operand() == 0xFE,
        m.registers.sr.zero,
    ensures
        m.stepped() == (m, Ok::<(), UnknownOpcode>(())),
        m.ran(limit) == (m, Ok::<(), UnknownOpcode>(())),
    decreases limit,
{
    assert(Instruction::BEQ.opcodes()[0] == 0xF0);
    step_runs_the_answering_instruction(m, Instruction::BEQ);
    branch_by_minus_two_is_a_loop(m);
    if limit > 0 {
        beq_to_itself_loops(m, (limit - 1) as nat);
    }
}

/// A machine at a JSR whose target holds an RTS is, two steps later, at the
/// instruction after the JSR, with every other register and the memory as
/// they were.
pub proof fn jsr_then_rts_steps_past_the_call(m: Machine)
    requires
        m.wf(),
        m.instructions == instruction_table(),
        m.read(m.registers.pc) == 0x20,
        m.read(m.operand_word()) == 0x60,
    ensures
        ({
            let (called, first) = m.stepped();
            let (returned, second) = called.stepped();
            &&& first is Ok
            &&& second is Ok
            &&& called.registers.pc == m.operand_word()
            &&& returned.registers == m.registers.moved(3)
            &&& returned.memory == m.memory
        }),
{
    assert(Instruction::JSR.opcodes()[0] == 0x20);
    assert(Instruction::RTS.opcodes()[0] == 0x60);
    call_then_return(m, 0x20, 0x60);
    step_runs_the_answering_instruction(m, Instruction::JSR);
    let called = Instruction::JSR.execute_spec(0x20, m).0;
    assert(called.memory == m.memory);
    step_runs_the_answering_instruction(called, Instruction::RTS);
}

} // verus!
