//! Addressing modes, the instruction set and the dispatch table.

use vstd::prelude::*;

use crate::cpu::{Machine, CPU};
use crate::routines::{
    adc, and, asl, bcc, bcs, beq, bit, bmi, bne, bpl, brk, bvc, bvs, clc, cld, cli, clv, cmp, cpx, cpy,
    dec, dex, dey, eor, inc, inx, iny, jsr, lda, ldx, ldy, lsr, nop, ora, pha, php, pla, plp, rol, ror,
    rti, rts, sbc, sec, sed, sei, sta, stx, sty, tax, tay, tsx, txa, txs, tya,
};
use crate::word::{make_word, signed, word, wrap16};

verus! {

/// How an instruction finds its operand. Words are little-endian: the low
/// byte comes first.
#[derive(Clone, Copy, Debug, PartialEq, Eq, Structural)]
pub enum Mode {
    /// The operand is the accumulator; no operand byte follows the opcode.
    Accumulator,
    /// Two operand bytes give the address.
    Absolute,
    /// Two operand bytes give an address, to which X is added.
    AbsoluteX,
    /// Two operand bytes give an address, to which Y is added.
    AbsoluteY,
    /// The operand byte itself is the value.
    Immediate,
    /// The instruction names no operand; no operand byte follows the opcode.
    Implied,
    /// Two operand bytes give the address of a word, which is the address.
    Indirect,
    /// The operand plus X names a zero-page word, which is the address.
    IndirectX,
    /// The operand names a zero-page word; that word plus Y is the address.
    IndirectY,
    /// The operand byte is a signed distance from the byte that follows it.
    Relative,
    /// One operand byte gives an address in the first 256 bytes.
    Zeropage,
    /// One operand byte plus X, kept within the first 256 bytes.
    ZeropageX,
    /// One operand byte plus Y, kept within the first 256 bytes.
    ZeropageY,
}

/// The zero-page address that `operand` and `index` give: their sum modulo 256.
pub open spec fn zero_page(operand: u16, index: u8) -> u16 {
    ((operand + index) % 0x100) as u16
}

impl Machine {
    /// The first operand byte: the one after the opcode at the program counter.
    pub open spec fn first_operand(self) -> u8 {
        self.read(wrap16(self.registers.pc + 1))
    }

    /// The second operand byte.
    pub open spec fn second_operand(self) -> u8 {
        self.read(wrap16(self.registers.pc + 2))
    }

    /// The word that the two operand bytes form.
    pub open spec fn operand_word(self) -> u16 {
        word(self.first_operand(), self.second_operand())
    }

    /// The word stored at `address` and the address after it, modulo 65536.
    pub open spec fn read_word(self, address: u16) -> u16 {
        word(self.read(address), self.read(wrap16(address + 1)))
    }

    /// The word stored at zero-page address `address` and the one after it,
    /// modulo 256.
    pub open spec fn read_zero_page_word(self, address: u16) -> u16 {
        word(self.read(zero_page(address, 0)), self.read(zero_page(address, 1)))
    }
}

impl Mode {
    /// The addressing mode that an opcode stands for. Opcodes that take no
    /// operand, and bytes that are no opcode, give `Implied`.
    pub open spec fn of_opcode(opcode: u8) -> Mode {
        match opcode {
            0x09 | 0x29 | 0x49 | 0x69 | 0xA0 | 0xA2 | 0xA9 | 0xC0 | 0xC9 | 0xE0 | 0xE9 => Mode::Immediate,
            0x05 | 0x06 | 0x24 | 0x25 | 0x26 | 0x45 | 0x46 | 0x65 | 0x66 | 0x84 | 0x85
            | 0x86 | 0xA4 | 0xA5 | 0xA6 | 0xC4 | 0xC5 | 0xC6 | 0xE4 | 0xE5 | 0xE6 => Mode::Zeropage,
            0x15 | 0x16 | 0x35 | 0x36 | 0x55 | 0x56 | 0x75 | 0x76 | 0x94 | 0x95 | 0xB4
            | 0xB5 | 0xD5 | 0xD6 | 0xF5 | 0xF6 => Mode::ZeropageX,
            0x96 | 0xB6 => Mode::ZeropageY,
            0x0D | 0x0E | 0x20 | 0x2C | 0x2D | 0x2E | 0x4D | 0x4E | 0x6D | 0x6E | 0x8C
            | 0x8D | 0x8E | 0xAC | 0xAD | 0xAE | 0xCC | 0xCD | 0xCE | 0xED | 0xEE => Mode::Absolute,
            0x1D | 0x1E | 0x3D | 0x3E | 0x5D | 0x5E | 0x7D | 0x7E | 0x9D | 0xBC | 0xBD
            | 0xDD | 0xDE | 0xFD | 0xFE => Mode::AbsoluteX,
            0x19 | 0x39 | 0x59 | 0x79 | 0x99 | 0xB9 | 0xBE | 0xD9 | 0xF9 => Mode::AbsoluteY,
            0x01 | 0x21 | 0x41 | 0x61 | 0x81 | 0xA1 | 0xC1 | 0xE1 => Mode::IndirectX,
            0x11 | 0x31 | 0x51 | 0x71 | 0x91 | 0xB1 | 0xD1 | 0xF1 => Mode::IndirectY,
            0x10 | 0x30 | 0x50 | 0x70 | 0x90 | 0xB0 | 0xD0 | 0xF0 => Mode::Relative,
            0x0A | 0x2A | 0x4A | 0x6A => Mode::Accumulator,
            _ => Mode::Implied,
        }
    }

    /// The number of operand bytes that follow the opcode.
    pub open spec fn operand_len(self) -> int {
        match self {
            Mode::Accumulator | Mode::Implied => 0,
            Mode::Immediate | Mode::Relative | Mode::Zeropage | Mode::ZeropageX | Mode::ZeropageY => 1,
            Mode::Absolute | Mode::AbsoluteX | Mode::AbsoluteY | Mode::Indirect | Mode::IndirectX
            | Mode::IndirectY => 2,
        }
    }

    /// The address that the mode resolves to on machine `m`, whose program
    /// counter is at the opcode. `Accumulator` and `Implied` have no operand
    /// bytes and resolve to address zero.
    pub open spec fn effective_address(self, m: Machine) -> u16 {
        match self {
            Mode::Accumulator | Mode::Implied => 0,
            Mode::Immediate => wrap16(m.registers.pc + 1),
            Mode::Zeropage => zero_page(m.first_operand() as u16, 0),
            Mode::ZeropageX => zero_page(m.first_operand() as u16, m.registers.x),
            Mode::ZeropageY => zero_page(m.first_operand() as u16, m.registers.y),
            Mode::Absolute => m.operand_word(),
            Mode::AbsoluteX => wrap16(m.operand_word() + m.registers.x),
            Mode::AbsoluteY => wrap16(m.operand_word() + m.registers.y),
            Mode::Indirect => m.read_word(m.operand_word()),
            Mode::IndirectX => m.read_zero_page_word(zero_page(m.operand_word(), m.registers.x)),
            Mode::IndirectY => wrap16(m.read_zero_page_word(m.operand_word()) + m.registers.y),
            Mode::Relative => wrap16(m.registers.pc + 2 + signed(m.first_operand())),
        }
    }

    /// The byte that a read through the mode yields on machine `m`.
    pub open spec fn operand_value(self, m: Machine) -> u8 {
        m.read(self.effective_address(m))
    }

    /// The machine after the mode's operand bytes are consumed.
    pub open spec fn consumed(self, m: Machine) -> Machine {
        m.moved(self.operand_len())
    }

    /// The machine after `value` is written through the mode: the operand
    /// bytes are consumed, `value` is stored at the effective address, and
    /// the negative and zero flags are those of `value`.
    pub open spec fn written(self, m: Machine, value: u8) -> Machine {
        self.consumed(m).write(self.effective_address(m), value).with_nz(value)
    }

    /// The addressing mode that an opcode stands for.
    pub fn decode(opcode: u8) -> (mode: Mode)
        ensures
            mode == Mode::of_opcode(opcode),
    {
        match opcode {
            0x09 | 0x29 | 0x49 | 0x69 | 0xA0 | 0xA2 | 0xA9 | 0xC0 | 0xC9 | 0xE0 | 0xE9 => Mode::Immediate,
            0x05 | 0x06 | 0x24 | 0x25 | 0x26 | 0x45 | 0x46 | 0x65 | 0x66 | 0x84 | 0x85
            | 0x86 | 0xA4 | 0xA5 | 0xA6 | 0xC4 | 0xC5 | 0xC6 | 0xE4 | 0xE5 | 0xE6 => Mode::Zeropage,
            0x15 | 0x16 | 0x35 | 0x36 | 0x55 | 0x56 | 0x75 | 0x76 | 0x94 | 0x95 | 0xB4
            | 0xB5 | 0xD5 | 0xD6 | 0xF5 | 0xF6 => Mode::ZeropageX,
            0x96 | 0xB6 => Mode::ZeropageY,
            0x0D | 0x0E | 0x20 | 0x2C | 0x2D | 0x2E | 0x4D | 0x4E | 0x6D | 0x6E | 0x8C
            | 0x8D | 0x8E | 0xAC | 0xAD | 0xAE | 0xCC | 0xCD | 0xCE | 0xED | 0xEE => Mode::Absolute,
            0x1D | 0x1E | 0x3D | 0x3E | 0x5D | 0x5E | 0x7D | 0x7E | 0x9D | 0xBC | 0xBD
            | 0xDD | 0xDE | 0xFD | 0xFE => Mode::AbsoluteX,
            0x19 | 0x39 | 0x59 | 0x79 | 0x99 | 0xB9 | 0xBE | 0xD9 | 0xF9 => Mode::AbsoluteY,
            0x01 | 0x21 | 0x41 | 0x61 | 0x81 | 0xA1 | 0xC1 | 0xE1 => Mode::IndirectX,
            0x11 | 0x31 | 0x51 | 0x71 | 0x91 | 0xB1 | 0xD1 | 0xF1 => Mode::IndirectY,
            0x10 | 0x30 | 0x50 | 0x70 | 0x90 | 0xB0 | 0xD0 | 0xF0 => Mode::Relative,
            0x0A | 0x2A | 0x4A | 0x6A => Mode::Accumulator,
            _ => Mode::Implied,
        }
    }

    /// Consumes the operand bytes and returns the effective address.
    pub fn resolve(&self, cpu: &mut CPU) -> (address: u16)
        ensures
            address == self.effective_address(old(cpu)@),
            final(cpu)@ == self.consumed(old(cpu)@),
    {
        match self {
            Mode::Accumulator | Mode::Implied => 0,
            Mode::Immediate => cpu.registers.increment_pc(),
            Mode::Zeropage => resolve_zero_page(cpu, 0),
            Mode::ZeropageX => resolve_zero_page(cpu, cpu.registers.x),
            Mode::ZeropageY => resolve_zero_page(cpu, cpu.registers.y),
            Mode::Absolute => resolve_absolute(cpu, 0),
            Mode::AbsoluteX => resolve_absolute(cpu, cpu.registers.x),
            Mode::AbsoluteY => resolve_absolute(cpu, cpu.registers.y),
            Mode::Indirect => resolve_indirect(cpu),
            Mode::IndirectX => resolve_indirect_x(cpu),
            Mode::IndirectY => resolve_indirect_y(cpu),
            Mode::Relative => resolve_relative(cpu),
        }
    }

    /// Reads through the mode: consumes the operand bytes and returns the
    /// byte at the effective address.
    pub fn get_memory(&self, cpu: &mut CPU) -> (byte: u8)
        ensures
            byte == self.operand_value(old(cpu)@),
            final(cpu)@ == self.consumed(old(cpu)@),
    {
        let address = self.resolve(cpu);
        cpu.get_umemory_at_address(address)
    }

    /// Writes through the mode: consumes the operand bytes, stores `byte` at
    /// the effective address and sets the negative and zero flags from it.
    pub fn set_memory(&self, byte: u8, cpu: &mut CPU)
        ensures
            final(cpu)@ == self.written(old(cpu)@, byte),
    {
        let address = self.resolve(cpu);
        cpu.set_nz(byte);
        cpu.set_memory_at_address(address, byte);
    }

    /// Moves the program counter back over the operand bytes, so that the
    /// same operand can be resolved once more.
    pub fn rewind(&self, cpu: &mut CPU)
        ensures
            final(cpu)@ == old(cpu)@.moved(-self.operand_len()),
    {
        match self {
            Mode::Accumulator | Mode::Implied => {},
            Mode::Immediate | Mode::Relative | Mode::Zeropage | Mode::ZeropageX | Mode::ZeropageY => {
                cpu.registers.decrement_pc();
            },
            Mode::Absolute | Mode::AbsoluteX | Mode::AbsoluteY | Mode::Indirect | Mode::IndirectX
            | Mode::IndirectY => {
                cpu.registers.decrement_pc();
                cpu.registers.decrement_pc();
            },
        }
    }
}

/// Advances the program counter by one and returns the byte it then points at.
fn next_byte(cpu: &mut CPU) -> (byte: u8)
    ensures
        byte == old(cpu)@.first_operand(),
        final(cpu)@ == old(cpu)@.moved(1),
{
    let address = cpu.registers.increment_pc();
    cpu.get_umemory_at_address(address)
}

/// Advances the program counter by two and returns the word that the two
/// bytes passed form.
fn next_word(cpu: &mut CPU) -> (operand: u16)
    ensures
        operand == old(cpu)@.operand_word(),
        final(cpu)@ == old(cpu)@.moved(2),
{
    let low = next_byte(cpu);
    let high = next_byte(cpu);
    make_word(low, high)
}

/// Consumes one operand byte; the address is that byte plus `index`, within
/// the zero page.
fn resolve_zero_page(cpu: &mut CPU, index: u8) -> (address: u16)
    ensures
        address == zero_page(old(cpu)@.first_operand() as u16, index),
        final(cpu)@ == old(cpu)@.moved(1),
{
    let operand = next_byte(cpu);
    zero_page_address(operand as u16, index)
}

/// Consumes two operand bytes; the address is their word plus `index`.
fn resolve_absolute(cpu: &mut CPU, index: u8) -> (address: u16)
    ensures
        address == wrap16(old(cpu)@.operand_word() + index),
        final(cpu)@ == old(cpu)@.moved(2),
{
    let operand = next_word(cpu);
    operand.wrapping_add(index as u16)
}

/// Consumes two operand bytes; the address is the word stored where they
/// point.
fn resolve_indirect(cpu: &mut CPU) -> (address: u16)
    ensures
        address == Mode::Indirect.effective_address(old(cpu)@),
        final(cpu)@ == old(cpu)@.moved(2),
{
    let pointer = next_word(cpu);
    word_at(cpu, pointer)
}

/// Consumes two operand bytes; the address is the zero-page word at the
/// operand plus X.
fn resolve_indirect_x(cpu: &mut CPU) -> (address: u16)
    ensures
        address == Mode::IndirectX.effective_address(old(cpu)@),
        final(cpu)@ == old(cpu)@.moved(2),
{
    let operand = next_word(cpu);
    let pointer = zero_page_address(operand, cpu.registers.x);
    zero_page_word(cpu, pointer)
}

/// Consumes two operand bytes; the address is the zero-page word at the
/// operand, plus Y.
fn resolve_indirect_y(cpu: &mut CPU) -> (address: u16)
    ensures
        address == Mode::IndirectY.effective_address(old(cpu)@),
        final(cpu)@ == old(cpu)@.moved(2),
{
    let operand = next_word(cpu);
    let pointer = zero_page_word(cpu, operand);
    pointer.wrapping_add(cpu.registers.y as u16)
}

/// Consumes the offset byte; the address is the byte after it, moved by the
/// offset.
fn resolve_relative(cpu: &mut CPU) -> (address: u16)
    ensures
        address == Mode::Relative.effective_address(old(cpu)@),
        final(cpu)@ == old(cpu)@.moved(1),
{
    let offset = next_byte(cpu);
    let after = cpu.registers.pc.wrapping_add(1);
    displaced(after, offset)
}

/// The word stored at `address` and the address after it.
pub(crate) fn word_at(cpu: &CPU, address: u16) -> (pointer: u16)
    ensures
        pointer == cpu@.read_word(address),
{
    let low = cpu.get_umemory_at_address(address);
    let high = cpu.get_umemory_at_address(address.wrapping_add(1));
    make_word(low, high)
}

/// `base` moved by the signed distance that `offset` stands for, modulo 65536.
fn displaced(base: u16, offset: u8) -> (target: u16)
    ensures
        target == wrap16(base + signed(offset)),
{
    if offset & 0x80 == 0x80 {
        assert(offset & 0x80 == 0x80 ==> offset >= 0x80) by (bit_vector);
        base.wrapping_sub(0x100 - offset as u16)
    } else {
        assert(offset & 0x80 != 0x80 ==> offset < 0x80) by (bit_vector);
        base.wrapping_add(offset as u16)
    }
}

/// The sum of `operand` and `index`, truncated to the zero page.
fn zero_page_address(operand: u16, index: u8) -> (address: u16)
    ensures
        address == zero_page(operand, index),
        address < 0x100,
{
    let sum = operand.wrapping_add(index as u16);
    assert(sum & 0xFF == sum % 0x100) by (bit_vector);
    sum & 0xFF
}

/// The word stored in the zero page at `address` truncated to eight bits.
fn zero_page_word(cpu: &CPU, address: u16) -> (pointer: u16)
    ensures
        pointer == cpu@.read_zero_page_word(address),
{
    let low = cpu.get_umemory_at_address(zero_page_address(address, 0));
    let high = cpu.get_umemory_at_address(zero_page_address(address, 1));
    make_word(low, high)
}

/// The instructions, one per mnemonic.
#[allow(clippy::upper_case_acronyms)]
#[derive(Clone, Copy, Debug, PartialEq, Eq, Structural)]
pub enum Instruction {
    /// Break: push the return address and the status, load the program counter from the vector.
    BRK,
    /// Branch if the negative flag is clear.
    BPL,
    /// Jump to a subroutine.
    JSR,
    /// Branch if the negative flag is set.
    BMI,
    /// Return from a break.
    RTI,
    /// Branch if the overflow flag is clear.
    BVC,
    /// Return from a subroutine.
    RTS,
    /// Branch if the overflow flag is set.
    BVS,
    /// Branch if the carry flag is clear.
    BCC,
    /// Load Y.
    LDY,
    /// Branch if the carry flag is set.
    BCS,
    /// Compare Y with the operand.
    CPY,
    /// Branch if the zero flag is clear.
    BNE,
    /// Compare X with the operand.
    CPX,
    /// Branch if the zero flag is set.
    BEQ,
    /// Or the operand into the accumulator.
    ORA,
    /// And the operand into the accumulator.
    AND,
    /// Exclusive-or the operand into the accumulator.
    EOR,
    /// Add the operand and the carry to the accumulator.
    ADC,
    /// Store the accumulator.
    STA,
    /// Load the accumulator.
    LDA,
    /// Compare the accumulator with the operand.
    CMP,
    /// Subtract the operand and the carry from the accumulator.
    SBC,
    /// Load X.
    LDX,
    /// Test the operand's bits against the accumulator.
    BIT,
    /// Store Y.
    STY,
    /// Shift left.
    ASL,
    /// Rotate left.
    ROL,
    /// Shift right.
    LSR,
    /// Rotate right.
    ROR,
    /// Store X.
    STX,
    /// Decrement memory.
    DEC,
    /// Increment memory.
    INC,
    /// Do nothing.
    NOP,
    /// Push the status byte.
    PHP,
    /// Clear the carry flag.
    CLC,
    /// Pull the status byte.
    PLP,
    /// Set the carry flag.
    SEC,
    /// Push the accumulator.
    PHA,
    /// Clear the interrupt-disable flag.
    CLI,
    /// Pull the accumulator.
    PLA,
    /// Set the interrupt-disable flag.
    SEI,
    /// Decrement Y.
    DEY,
    /// Copy Y to the accumulator.
    TYA,
    /// Copy the accumulator to Y.
    TAY,
    /// Clear the overflow flag.
    CLV,
    /// Increment Y.
    INY,
    /// Clear the decimal flag.
    CLD,
    /// Increment X.
    INX,
    /// Set the decimal flag.
    SED,
    /// Copy X to the accumulator.
    TXA,
    /// Copy X to the stack pointer.
    TXS,
    /// Copy the accumulator to X.
    TAX,
    /// Copy the stack pointer to X.
    TSX,
    /// Decrement X.
    DEX,
}

impl Instruction {
    /// The opcodes that the instruction answers to, one per addressing mode.
    pub open spec fn opcodes(self) -> Seq<u8> {
        match self {
            Instruction::BRK => seq![0x00u8],
            Instruction::BPL => seq![0x10u8],
            Instruction::JSR => seq![0x20u8],
            Instruction::BMI => seq![0x30u8],
            Instruction::RTI => seq![0x40u8],
            Instruction::BVC => seq![0x50u8],
            Instruction::RTS => seq![0x60u8],
            Instruction::BVS => seq![0x70u8],
            Instruction::BCC => seq![0x90u8],
            Instruction::LDY => seq![0xA0u8, 0xA4u8, 0xB4u8, 0xACu8, 0xBCu8],
            Instruction::BCS => seq![0xB0u8],
            Instruction::CPY => seq![0xC0u8, 0xC4u8, 0xCCu8],
            Instruction::BNE => seq![0xD0u8],
            Instruction::CPX => seq![0xE0u8, 0xE4u8],
            Instruction::BEQ => seq![0xF0u8],
            Instruction::ORA => seq![0x09u8, 0x05u8, 0x15u8, 0x0Du8, 0x1Du8, 0x19u8, 0x01u8, 0x11u8],
            Instruction::AND => seq![0x29u8, 0x25u8, 0x35u8, 0x2Du8, 0x3Du8, 0x39u8, 0x21u8, 0x31u8],
            Instruction::EOR => seq![0x49u8, 0x45u8, 0x55u8, 0x4Du8, 0x5Du8, 0x59u8, 0x41u8, 0x51u8],
            Instruction::ADC => seq![0x69u8, 0x65u8, 0x75u8, 0x6Du8, 0x7Du8, 0x79u8, 0x61u8, 0x71u8],
            Instruction::STA => seq![0x85u8, 0x95u8, 0x8Du8, 0x9Du8, 0x99u8, 0x81u8, 0x91u8],
            Instruction::LDA => seq![0xA9u8, 0xA5u8, 0xB5u8, 0xADu8, 0xBDu8, 0xB9u8, 0xA1u8, 0xB1u8],
            Instruction::CMP => seq![0xC9u8, 0xC5u8, 0xD5u8, 0xCDu8, 0xDDu8, 0xD9u8, 0xC1u8, 0xD1u8],
            Instruction::SBC => seq![0xE9u8, 0xE5u8, 0xF5u8, 0xEDu8, 0xFDu8, 0xF9u8, 0xE1u8, 0xF1u8],
            Instruction::LDX => seq![0xA2u8, 0xA6u8, 0xB6u8, 0xAEu8, 0xBEu8],
            Instruction::BIT => seq![0x24u8, 0x2Cu8],
            Instruction::STY => seq![0x84u8, 0x94u8, 0x8Cu8],
            Instruction::ASL => seq![0x0Au8, 0x06u8, 0x16u8, 0x0Eu8, 0x1Eu8],
            Instruction::ROL => seq![0x2Au8, 0x26u8, 0x36u8, 0x2Eu8, 0x3Eu8],
            Instruction::LSR => seq![0x4Au8, 0x46u8, 0x56u8, 0x4Eu8, 0x5Eu8],
            Instruction::ROR => seq![0x6Au8, 0x66u8, 0x76u8, 0x6Eu8, 0x7Eu8],
            Instruction::STX => seq![0x86u8, 0x96u8, 0x8Eu8],
            Instruction::DEC => seq![0xC6u8, 0xD6u8, 0xCEu8, 0xDEu8],
            Instruction::INC => seq![0xE6u8, 0xF6u8, 0xEEu8, 0xFEu8],
            Instruction::NOP => seq![0xEAu8],
            Instruction::PHP => seq![0x08u8],
            Instruction::CLC => seq![0x18u8],
            Instruction::PLP => seq![0x28u8],
            Instruction::SEC => seq![0x38u8],
            Instruction::PHA => seq![0x48u8],
            Instruction::CLI => seq![0x58u8],
            Instruction::PLA => seq![0x68u8],
            Instruction::SEI => seq![0x78u8],
            Instruction::DEY => seq![0x88u8],
            Instruction::TYA => seq![0x98u8],
            Instruction::TAY => seq![0xA8u8],
            Instruction::CLV => seq![0xB8u8],
            Instruction::INY => seq![0xC8u8],
            Instruction::CLD => seq![0xD8u8],
            Instruction::INX => seq![0xE8u8],
            Instruction::SED => seq![0xF8u8],
            Instruction::TXA => seq![0x8Au8],
            Instruction::TXS => seq![0x9Au8],
            Instruction::TAX => seq![0xAAu8],
            Instruction::TSX => seq![0xBAu8],
            Instruction::DEX => seq![0xCAu8],
        }
    }

    /// Whether `opcode` is one of the instruction's opcodes.
    pub open spec fn handles(self, opcode: u8) -> bool {
        self.opcodes().contains(opcode)
    }

    /// Whether `opcode` is one of the instruction's opcodes.
    pub fn answers_to(&self, opcode: u8) -> (answer: bool)
        ensures
            answer == self.handles(opcode),
    {
        let opcodes = self.get_opcodes();
        let mut index: usize = 0;
        while index < opcodes.len()
            invariant
                index <= opcodes.len(),
                opcodes@ == self.opcodes(),
                forall|earlier: int| 0 <= earlier < index ==> opcodes@[earlier] != opcode,
            decreases opcodes.len() - index,
        {
            if opcodes[index] == opcode {
                return true;
            }
            index += 1;
        }
        false
    }

    /// The opcodes that the instruction answers to.
    pub fn get_opcodes(&self) -> (opcodes: Vec<u8>)
        ensures
            opcodes@ == self.opcodes(),
    {
        match self {
            Instruction::BRK => vec![0x00],
            Instruction::BPL => vec![0x10],
            Instruction::JSR => vec![0x20],
            Instruction::BMI => vec![0x30],
            Instruction::RTI => vec![0x40],
            Instruction::BVC => vec![0x50],
            Instruction::RTS => vec![0x60],
            Instruction::BVS => vec![0x70],
            Instruction::BCC => vec![0x90],
            Instruction::LDY => vec![0xA0, 0xA4, 0xB4, 0xAC, 0xBC],
            Instruction::BCS => vec![0xB0],
            Instruction::CPY => vec![0xC0, 0xC4, 0xCC],
            Instruction::BNE => vec![0xD0],
            Instruction::CPX => vec![0xE0, 0xE4],
            Instruction::BEQ => vec![0xF0],
            Instruction::ORA => vec![0x09, 0x05, 0x15, 0x0D, 0x1D, 0x19, 0x01, 0x11],
            Instruction::AND => vec![0x29, 0x25, 0x35, 0x2D, 0x3D, 0x39, 0x21, 0x31],
            Instruction::EOR => vec![0x49, 0x45, 0x55, 0x4D, 0x5D, 0x59, 0x41, 0x51],
            Instruction::ADC => vec![0x69, 0x65, 0x75, 0x6D, 0x7D, 0x79, 0x61, 0x71],
            Instruction::STA => vec![0x85, 0x95, 0x8D, 0x9D, 0x99, 0x81, 0x91],
            Instruction::LDA => vec![0xA9, 0xA5, 0xB5, 0xAD, 0xBD, 0xB9, 0xA1, 0xB1],
            Instruction::CMP => vec![0xC9, 0xC5, 0xD5, 0xCD, 0xDD, 0xD9, 0xC1, 0xD1],
            Instruction::SBC => vec![0xE9, 0xE5, 0xF5, 0xED, 0xFD, 0xF9, 0xE1, 0xF1],
            Instruction::LDX => vec![0xA2, 0xA6, 0xB6, 0xAE, 0xBE],
            Instruction::BIT => vec![0x24, 0x2C],
            Instruction::STY => vec![0x84, 0x94, 0x8C],
            Instruction::ASL => vec![0x0A, 0x06, 0x16, 0x0E, 0x1E],
            Instruction::ROL => vec![0x2A, 0x26, 0x36, 0x2E, 0x3E],
            Instruction::LSR => vec![0x4A, 0x46, 0x56, 0x4E, 0x5E],
            Instruction::ROR => vec![0x6A, 0x66, 0x76, 0x6E, 0x7E],
            Instruction::STX => vec![0x86, 0x96, 0x8E],
            Instruction::DEC => vec![0xC6, 0xD6, 0xCE, 0xDE],
            Instruction::INC => vec![0xE6, 0xF6, 0xEE, 0xFE],
            Instruction::NOP => vec![0xEA],
            Instruction::PHP => vec![0x08],
            Instruction::CLC => vec![0x18],
            Instruction::PLP => vec![0x28],
            Instruction::SEC => vec![0x38],
            Instruction::PHA => vec![0x48],
            Instruction::CLI => vec![0x58],
            Instruction::PLA => vec![0x68],
            Instruction::SEI => vec![0x78],
            Instruction::DEY => vec![0x88],
            Instruction::TYA => vec![0x98],
            Instruction::TAY => vec![0xA8],
            Instruction::CLV => vec![0xB8],
            Instruction::INY => vec![0xC8],
            Instruction::CLD => vec![0xD8],
            Instruction::INX => vec![0xE8],
            Instruction::SED => vec![0xF8],
            Instruction::TXA => vec![0x8A],
            Instruction::TXS => vec![0x9A],
            Instruction::TAX => vec![0xAA],
            Instruction::TSX => vec![0xBA],
            Instruction::DEX => vec![0xCA],
        }
    }

    /// Shifts or rotates `value` by one place; returns the result and the
    /// bit moved out.
    pub fn shift(&self, value: u8) -> (shifted: (u8, bool))
        ensures
            shifted.0 == self.shift_result(value),
            shifted.1 == self.shift_carry(value),
    {
        assert(value & 0x80 == 0x80 <==> value >= 0x80) by (bit_vector);
        assert(value & 0x01 == 0x01 <==> value % 2 == 1) by (bit_vector);
        match self {
            Instruction::ASL => {
                assert(value << 1 == (2 * value) % 0x100) by (bit_vector);
                (value << 1, value & 0x80 == 0x80)
            },
            Instruction::LSR => {
                assert(value >> 1 == value / 2) by (bit_vector);
                (value >> 1, value & 0x01 == 0x01)
            },
            Instruction::ROL => {
                assert((value << 1) | (value >> 7) == (2 * value) % 0x100 + value / 0x80) by (bit_vector);
                ((value << 1) | (value >> 7), value & 0x80 == 0x80)
            },
            Instruction::ROR => {
                assert((value >> 1) | (value << 7) == value / 2 + 0x80 * (value % 2)) by (bit_vector);
                ((value >> 1) | (value << 7), value & 0x01 == 0x01)
            },
            _ => (value, false),
        }
    }

    /// Runs the instruction on `cpu`, whose program counter is at `opcode`.
    /// Returns whether it completed normally: `false` says that it placed
    /// the program counter itself, which must then not be advanced.
    pub fn execute(&self, opcode: &u8, cpu: &mut CPU) -> (normal: bool)
        ensures
            (final(cpu)@, normal) == self.execute_spec(*opcode, old(cpu)@),
    {
        match self {
            Instruction::BRK => brk(*opcode, cpu),
            Instruction::BPL => bpl(*opcode, cpu),
            Instruction::JSR => jsr(*opcode, cpu),
            Instruction::BMI => bmi(*opcode, cpu),
            Instruction::RTI => rti(*opcode, cpu),
            Instruction::BVC => bvc(*opcode, cpu),
            Instruction::RTS => rts(*opcode, cpu),
            Instruction::BVS => bvs(*opcode, cpu),
            Instruction::BCC => bcc(*opcode, cpu),
            Instruction::LDY => ldy(*opcode, cpu),
            Instruction::BCS => bcs(*opcode, cpu),
            Instruction::CPY => cpy(*opcode, cpu),
            Instruction::BNE => bne(*opcode, cpu),
            Instruction::CPX => cpx(*opcode, cpu),
            Instruction::BEQ => beq(*opcode, cpu),
            Instruction::ORA => ora(*opcode, cpu),
            Instruction::AND => and(*opcode, cpu),
            Instruction::EOR => eor(*opcode, cpu),
            Instruction::ADC => adc(*opcode, cpu),
            Instruction::STA => sta(*opcode, cpu),
            Instruction::LDA => lda(*opcode, cpu),
            Instruction::CMP => cmp(*opcode, cpu),
            Instruction::SBC => sbc(*opcode, cpu),
            Instruction::LDX => ldx(*opcode, cpu),
            Instruction::BIT => bit(*opcode, cpu),
            Instruction::STY => sty(*opcode, cpu),
            Instruction::ASL => asl(*opcode, cpu),
            Instruction::ROL => rol(*opcode, cpu),
            Instruction::LSR => lsr(*opcode, cpu),
            Instruction::ROR => ror(*opcode, cpu),
            Instruction::STX => stx(*opcode, cpu),
            Instruction::DEC => dec(*opcode, cpu),
            Instruction::INC => inc(*opcode, cpu),
            Instruction::NOP => nop(*opcode, cpu),
            Instruction::PHP => php(*opcode, cpu),
            Instruction::CLC => clc(*opcode, cpu),
            Instruction::PLP => plp(*opcode, cpu),
            Instruction::SEC => sec(*opcode, cpu),
            Instruction::PHA => pha(*opcode, cpu),
            Instruction::CLI => cli(*opcode, cpu),
            Instruction::PLA => pla(*opcode, cpu),
            Instruction::SEI => sei(*opcode, cpu),
            Instruction::DEY => dey(*opcode, cpu),
            Instruction::TYA => tya(*opcode, cpu),
            Instruction::TAY => tay(*opcode, cpu),
            Instruction::CLV => clv(*opcode, cpu),
            Instruction::INY => iny(*opcode, cpu),
            Instruction::CLD => cld(*opcode, cpu),
            Instruction::INX => inx(*opcode, cpu),
            Instruction::SED => sed(*opcode, cpu),
            Instruction::TXA => txa(*opcode, cpu),
            Instruction::TXS => txs(*opcode, cpu),
            Instruction::TAX => tax(*opcode, cpu),
            Instruction::TSX => tsx(*opcode, cpu),
            Instruction::DEX => dex(*opcode, cpu),
        }
    }
}

/// The dispatch table: every instruction, in the order in which a lookup
/// tries them.
pub open spec fn instruction_table() -> Seq<Instruction> {
    seq![
        Instruction::BRK,
        Instruction::BPL,
        Instruction::JSR,
        Instruction::BMI,
        Instruction::RTI,
        Instruction::BVC,
        Instruction::RTS,
        Instruction::BVS,
        Instruction::BCC,
        Instruction::LDY,
        Instruction::BCS,
        Instruction::CPY,
        Instruction::BNE,
        Instruction::CPX,
        Instruction::BEQ,
        Instruction::ORA,
        Instruction::AND,
        Instruction::EOR,
        Instruction::ADC,
        Instruction::STA,
        Instruction::LDA,
        Instruction::CMP,
        Instruction::SBC,
        Instruction::LDX,
        Instruction::BIT,
        Instruction::STY,
        Instruction::ASL,
        Instruction::ROL,
        Instruction::LSR,
        Instruction::ROR,
        Instruction::STX,
        Instruction::DEC,
        Instruction::INC,
        Instruction::NOP,
        Instruction::PHP,
        Instruction::CLC,
        Instruction::PLP,
        Instruction::SEC,
        Instruction::PHA,
        Instruction::CLI,
        Instruction::PLA,
        Instruction::SEI,
        Instruction::DEY,
        Instruction::TYA,
        Instruction::TAY,
        Instruction::CLV,
        Instruction::INY,
        Instruction::CLD,
        Instruction::INX,
        Instruction::SED,
        Instruction::TXA,
        Instruction::TXS,
        Instruction::TAX,
        Instruction::TSX,
        Instruction::DEX,
    ]
}

/// Builds the dispatch table.
pub fn init_instructions() -> (instructions: Vec<Instruction>)
    ensures
        instructions@ == instruction_table(),
{
    vec![
        Instruction::BRK,
        Instruction::BPL,
        Instruction::JSR,
        Instruction::BMI,
        Instruction::RTI,
        Instruction::BVC,
        Instruction::RTS,
        Instruction::BVS,
        Instruction::BCC,
        Instruction::LDY,
        Instruction::BCS,
        Instruction::CPY,
        Instruction::BNE,
        Instruction::CPX,
        Instruction::BEQ,
        Instruction::ORA,
        Instruction::AND,
        Instruction::EOR,
        Instruction::ADC,
        Instruction::STA,
        Instruction::LDA,
        Instruction::CMP,
        Instruction::SBC,
        Instruction::LDX,
        Instruction::BIT,
        Instruction::STY,
        Instruction::ASL,
        Instruction::ROL,
        Instruction::LSR,
        Instruction::ROR,
        Instruction::STX,
        Instruction::DEC,
        Instruction::INC,
        Instruction::NOP,
        Instruction::PHP,
        Instruction::CLC,
        Instruction::PLP,
        Instruction::SEC,
        Instruction::PHA,
        Instruction::CLI,
        Instruction::PLA,
        Instruction::SEI,
        Instruction::DEY,
        Instruction::TYA,
        Instruction::TAY,
        Instruction::CLV,
        Instruction::INY,
        Instruction::CLD,
        Instruction::INX,
        Instruction::SED,
        Instruction::TXA,
        Instruction::TXS,
        Instruction::TAX,
        Instruction::TSX,
        Instruction::DEX,
    ]
}

/// Whether the entry at `index` of `table` is the first that answers to
/// `opcode`.
pub open spec fn answers_first(table: Seq<Instruction>, opcode: u8, index: int) -> bool {
    &&& 0 <= index < table.len()
    &&& table[index].handles(opcode)
    &&& forall|earlier: int| 0 <= earlier < index ==> !(#[trigger] table[earlier]).handles(opcode)
}

/// The first entry of `table` that answers to `opcode`, if there is one.
pub open spec fn lookup(table: Seq<Instruction>, opcode: u8) -> Option<Instruction> {
    if exists|index: int| answers_first(table, opcode, index) {
        Some(table[choose|index: int| answers_first(table, opcode, index)])
    } else {
        None
    }
}

/// Scans `table` for the first entry that answers to `opcode`.
pub fn find_instruction(table: &Vec<Instruction>, opcode: u8) -> (found: Option<Instruction>)
    ensures
        found == lookup(table@, opcode),
{
    let mut index: usize = 0;
    while index < table.len()
        invariant
            index <= table.len(),
            forall|earlier: int| 0 <= earlier < index ==> !(#[trigger] table@[earlier]).handles(opcode),
        decreases table.len() - index,
    {
        let instruction = table[index];
        if instruction.answers_to(opcode) {
            assert(answers_first(table@, opcode, index as int));
            return Some(instruction);
        }
        index += 1;
    }
    Option::None
}

} // verus!
