//! The routines of the instruction set, one per instruction.

use vstd::prelude::*;

use crate::cpu::{StatRegister, CPU};
use crate::instructions::{word_at, Instruction, Mode};
use crate::semantics::BREAK_VECTOR;
use crate::word::{
    decrement, following, high_byte, increment, low_byte, make_word, signed_value,
};

verus! {

/// Break: push the return address and the status, load the program counter from the vector.
pub(crate) fn brk(opcode: u8, cpu: &mut CPU) -> (normal: bool)
    ensures
        (final(cpu)@, normal) == Instruction::BRK.execute_spec(opcode, old(cpu)@),
{
    let status = cpu.registers.sr;
    let return_address = cpu.registers.increment_pc_by(2);
    push_word(cpu, return_address);
    cpu.push_to_stack(u8::from(status));
    cpu.registers.sr = StatRegister {
        negative: false,
        overflow: false,
        ignored: false,
        sbreak: false,
        decimal: false,
        interrupt: status.interrupt,
        zero: false,
        carry: false,
    };
    cpu.registers.pc = word_at(cpu, BREAK_VECTOR);
    false
}

/// Branch if the negative flag is clear.
pub(crate) fn bpl(opcode: u8, cpu: &mut CPU) -> (normal: bool)
    ensures
        (final(cpu)@, normal) == Instruction::BPL.execute_spec(opcode, old(cpu)@),
{
    let r = cpu.registers;
    branch(cpu, !r.sr.negative)
}

/// Jump to a subroutine.
pub(crate) fn jsr(opcode: u8, cpu: &mut CPU) -> (normal: bool)
    ensures
        (final(cpu)@, normal) == Instruction::JSR.execute_spec(opcode, old(cpu)@),
{
    let target = Mode::Absolute.resolve(cpu);
    let return_address = following(cpu.registers.pc);
    push_word(cpu, return_address);
    cpu.registers.pc = target;
    false
}

/// Branch if the negative flag is set.
pub(crate) fn bmi(opcode: u8, cpu: &mut CPU) -> (normal: bool)
    ensures
        (final(cpu)@, normal) == Instruction::BMI.execute_spec(opcode, old(cpu)@),
{
    let r = cpu.registers;
    branch(cpu, r.sr.negative)
}

/// Return from a break.
pub(crate) fn rti(opcode: u8, cpu: &mut CPU) -> (normal: bool)
    ensures
        (final(cpu)@, normal) == Instruction::RTI.execute_spec(opcode, old(cpu)@),
{
    let status = cpu.pull_from_stack();
    cpu.registers.sr = StatRegister::from(status);
    let target = pull_word(cpu);
    cpu.registers.pc = target;
    false
}

/// Branch if the overflow flag is clear.
pub(crate) fn bvc(opcode: u8, cpu: &mut CPU) -> (normal: bool)
    ensures
        (final(cpu)@, normal) == Instruction::BVC.execute_spec(opcode, old(cpu)@),
{
    let r = cpu.registers;
    branch(cpu, !r.sr.overflow)
}

/// Return from a subroutine.
pub(crate) fn rts(opcode: u8, cpu: &mut CPU) -> (normal: bool)
    ensures
        (final(cpu)@, normal) == Instruction::RTS.execute_spec(opcode, old(cpu)@),
{
    let target = pull_word(cpu);
    cpu.registers.pc = target;
    false
}

/// Branch if the overflow flag is set.
pub(crate) fn bvs(opcode: u8, cpu: &mut CPU) -> (normal: bool)
    ensures
        (final(cpu)@, normal) == Instruction::BVS.execute_spec(opcode, old(cpu)@),
{
    let r = cpu.registers;
    branch(cpu, r.sr.overflow)
}

/// Branch if the carry flag is clear.
pub(crate) fn bcc(opcode: u8, cpu: &mut CPU) -> (normal: bool)
    ensures
        (final(cpu)@, normal) == Instruction::BCC.execute_spec(opcode, old(cpu)@),
{
    let r = cpu.registers;
    branch(cpu, !r.sr.carry)
}

/// Load Y.
pub(crate) fn ldy(opcode: u8, cpu: &mut CPU) -> (normal: bool)
    ensures
        (final(cpu)@, normal) == Instruction::LDY.execute_spec(opcode, old(cpu)@),
{
    let mode = Mode::decode(opcode);
    let operand = mode.get_memory(cpu);
    set_y(cpu, operand);
    true
}

/// Branch if the carry flag is set.
pub(crate) fn bcs(opcode: u8, cpu: &mut CPU) -> (normal: bool)
    ensures
        (final(cpu)@, normal) == Instruction::BCS.execute_spec(opcode, old(cpu)@),
{
    let r = cpu.registers;
    branch(cpu, r.sr.carry)
}

/// Compare Y with the operand.
pub(crate) fn cpy(opcode: u8, cpu: &mut CPU) -> (normal: bool)
    ensures
        (final(cpu)@, normal) == Instruction::CPY.execute_spec(opcode, old(cpu)@),
{
    let mode = Mode::decode(opcode);
    let r = cpu.registers;
    let operand = mode.get_memory(cpu);
    compare(cpu, r.y, operand);
    true
}

/// Branch if the zero flag is clear.
pub(crate) fn bne(opcode: u8, cpu: &mut CPU) -> (normal: bool)
    ensures
        (final(cpu)@, normal) == Instruction::BNE.execute_spec(opcode, old(cpu)@),
{
    let r = cpu.registers;
    branch(cpu, !r.sr.zero)
}

/// Compare X with the operand.
pub(crate) fn cpx(opcode: u8, cpu: &mut CPU) -> (normal: bool)
    ensures
        (final(cpu)@, normal) == Instruction::CPX.execute_spec(opcode, old(cpu)@),
{
    let mode = Mode::decode(opcode);
    let r = cpu.registers;
    let operand = mode.get_memory(cpu);
    compare(cpu, r.x, operand);
    true
}

/// Branch if the zero flag is set.
pub(crate) fn beq(opcode: u8, cpu: &mut CPU) -> (normal: bool)
    ensures
        (final(cpu)@, normal) == Instruction::BEQ.execute_spec(opcode, old(cpu)@),
{
    let r = cpu.registers;
    branch(cpu, r.sr.zero)
}

/// Or the operand into the accumulator.
pub(crate) fn ora(opcode: u8, cpu: &mut CPU) -> (normal: bool)
    ensures
        (final(cpu)@, normal) == Instruction::ORA.execute_spec(opcode, old(cpu)@),
{
    let mode = Mode::decode(opcode);
    let r = cpu.registers;
    let operand = mode.get_memory(cpu);
    set_ac(cpu, r.ac | operand);
    true
}

/// And the operand into the accumulator.
pub(crate) fn and(opcode: u8, cpu: &mut CPU) -> (normal: bool)
    ensures
        (final(cpu)@, normal) == Instruction::AND.execute_spec(opcode, old(cpu)@),
{
    let mode = Mode::decode(opcode);
    let r = cpu.registers;
    let operand = mode.get_memory(cpu);
    set_ac(cpu, r.ac & operand);
    true
}

/// Exclusive-or the operand into the accumulator.
pub(crate) fn eor(opcode: u8, cpu: &mut CPU) -> (normal: bool)
    ensures
        (final(cpu)@, normal) == Instruction::EOR.execute_spec(opcode, old(cpu)@),
{
    let mode = Mode::decode(opcode);
    let r = cpu.registers;
    let operand = mode.get_memory(cpu);
    set_ac(cpu, r.ac ^ operand);
    true
}

/// Add the operand and the carry to the accumulator.
pub(crate) fn adc(opcode: u8, cpu: &mut CPU) -> (normal: bool)
    ensures
        (final(cpu)@, normal) == Instruction::ADC.execute_spec(opcode, old(cpu)@),
{
    let mode = Mode::decode(opcode);
    let operand = mode.get_memory(cpu);
    add_with_carry(cpu, operand);
    true
}

/// Store the accumulator.
pub(crate) fn sta(opcode: u8, cpu: &mut CPU) -> (normal: bool)
    ensures
        (final(cpu)@, normal) == Instruction::STA.execute_spec(opcode, old(cpu)@),
{
    let mode = Mode::decode(opcode);
    let r = cpu.registers;
    mode.set_memory(r.ac, cpu);
    true
}

/// Load the accumulator.
pub(crate) fn lda(opcode: u8, cpu: &mut CPU) -> (normal: bool)
    ensures
        (final(cpu)@, normal) == Instruction::LDA.execute_spec(opcode, old(cpu)@),
{
    let mode = Mode::decode(opcode);
    let operand = mode.get_memory(cpu);
    set_ac(cpu, operand);
    true
}

/// Compare the accumulator with the operand.
pub(crate) fn cmp(opcode: u8, cpu: &mut CPU) -> (normal: bool)
    ensures
        (final(cpu)@, normal) == Instruction::CMP.execute_spec(opcode, old(cpu)@),
{
    let mode = Mode::decode(opcode);
    let r = cpu.registers;
    let operand = mode.get_memory(cpu);
    compare(cpu, r.ac, operand);
    true
}

/// Subtract the operand and the carry from the accumulator.
pub(crate) fn sbc(opcode: u8, cpu: &mut CPU) -> (normal: bool)
    ensures
        (final(cpu)@, normal) == Instruction::SBC.execute_spec(opcode, old(cpu)@),
{
    let mode = Mode::decode(opcode);
    let operand = mode.get_memory(cpu);
    subtract_with_carry(cpu, operand);
    true
}

/// Load X.
pub(crate) fn ldx(opcode: u8, cpu: &mut CPU) -> (normal: bool)
    ensures
        (final(cpu)@, normal) == Instruction::LDX.execute_spec(opcode, old(cpu)@),
{
    let mode = Mode::decode(opcode);
    let operand = mode.get_memory(cpu);
    set_x(cpu, operand);
    true
}

/// Test the operand's bits against the accumulator.
pub(crate) fn bit(opcode: u8, cpu: &mut CPU) -> (normal: bool)
    ensures
        (final(cpu)@, normal) == Instruction::BIT.execute_spec(opcode, old(cpu)@),
{
    let mode = Mode::decode(opcode);
    let operand = mode.get_memory(cpu);
    bit_test(cpu, operand);
    true
}

/// Store Y.
pub(crate) fn sty(opcode: u8, cpu: &mut CPU) -> (normal: bool)
    ensures
        (final(cpu)@, normal) == Instruction::STY.execute_spec(opcode, old(cpu)@),
{
    let mode = Mode::decode(opcode);
    let r = cpu.registers;
    mode.set_memory(r.y, cpu);
    true
}

/// Shift left.
pub(crate) fn asl(opcode: u8, cpu: &mut CPU) -> (normal: bool)
    ensures
        (final(cpu)@, normal) == Instruction::ASL.execute_spec(opcode, old(cpu)@),
{
    let mode = Mode::decode(opcode);
    shift_operand(&Instruction::ASL, mode, cpu);
    true
}

/// Rotate left.
pub(crate) fn rol(opcode: u8, cpu: &mut CPU) -> (normal: bool)
    ensures
        (final(cpu)@, normal) == Instruction::ROL.execute_spec(opcode, old(cpu)@),
{
    let mode = Mode::decode(opcode);
    shift_operand(&Instruction::ROL, mode, cpu);
    true
}

/// Shift right.
pub(crate) fn lsr(opcode: u8, cpu: &mut CPU) -> (normal: bool)
    ensures
        (final(cpu)@, normal) == Instruction::LSR.execute_spec(opcode, old(cpu)@),
{
    let mode = Mode::decode(opcode);
    shift_operand(&Instruction::LSR, mode, cpu);
    true
}

/// Rotate right.
pub(crate) fn ror(opcode: u8, cpu: &mut CPU) -> (normal: bool)
    ensures
        (final(cpu)@, normal) == Instruction::ROR.execute_spec(opcode, old(cpu)@),
{
    let mode = Mode::decode(opcode);
    shift_operand(&Instruction::ROR, mode, cpu);
    true
}

/// Store X.
pub(crate) fn stx(opcode: u8, cpu: &mut CPU) -> (normal: bool)
    ensures
        (final(cpu)@, normal) == Instruction::STX.execute_spec(opcode, old(cpu)@),
{
    let mode = Mode::decode(opcode);
    let r = cpu.registers;
    mode.set_memory(r.x, cpu);
    true
}

/// Decrement memory.
pub(crate) fn dec(opcode: u8, cpu: &mut CPU) -> (normal: bool)
    ensures
        (final(cpu)@, normal) == Instruction::DEC.execute_spec(opcode, old(cpu)@),
{
    let mode = Mode::decode(opcode);
    let operand = reread(mode, cpu);
    mode.set_memory(decrement(operand), cpu);
    true
}

/// Increment memory.
pub(crate) fn inc(opcode: u8, cpu: &mut CPU) -> (normal: bool)
    ensures
        (final(cpu)@, normal) == Instruction::INC.execute_spec(opcode, old(cpu)@),
{
    let mode = Mode::decode(opcode);
    let operand = reread(mode, cpu);
    mode.set_memory(increment(operand), cpu);
    true
}

/// Do nothing.
pub(crate) fn nop(opcode: u8, cpu: &mut CPU) -> (normal: bool)
    ensures
        (final(cpu)@, normal) == Instruction::NOP.execute_spec(opcode, old(cpu)@),
{
    true
}

/// Push the status byte.
pub(crate) fn php(opcode: u8, cpu: &mut CPU) -> (normal: bool)
    ensures
        (final(cpu)@, normal) == Instruction::PHP.execute_spec(opcode, old(cpu)@),
{
    let r = cpu.registers;
    cpu.push_to_stack(u8::from(r.sr));
    true
}

/// Clear the carry flag.
pub(crate) fn clc(opcode: u8, cpu: &mut CPU) -> (normal: bool)
    ensures
        (final(cpu)@, normal) == Instruction::CLC.execute_spec(opcode, old(cpu)@),
{
    cpu.registers.sr.carry = false;
    true
}

/// Pull the status byte.
pub(crate) fn plp(opcode: u8, cpu: &mut CPU) -> (normal: bool)
    ensures
        (final(cpu)@, normal) == Instruction::PLP.execute_spec(opcode, old(cpu)@),
{
    let status = cpu.pull_from_stack();
    cpu.registers.sr = StatRegister::from(status);
    true
}

/// Set the carry flag.
pub(crate) fn sec(opcode: u8, cpu: &mut CPU) -> (normal: bool)
    ensures
        (final(cpu)@, normal) == Instruction::SEC.execute_spec(opcode, old(cpu)@),
{
    cpu.registers.sr.carry = true;
    true
}

/// Push the accumulator.
pub(crate) fn pha(opcode: u8, cpu: &mut CPU) -> (normal: bool)
    ensures
        (final(cpu)@, normal) == Instruction::PHA.execute_spec(opcode, old(cpu)@),
{
    let r = cpu.registers;
    cpu.push_to_stack(r.ac);
    true
}

/// Clear the interrupt-disable flag.
pub(crate) fn cli(opcode: u8, cpu: &mut CPU) -> (normal: bool)
    ensures
        (final(cpu)@, normal) == Instruction::CLI.execute_spec(opcode, old(cpu)@),
{
    cpu.registers.sr.interrupt = false;
    true
}

/// Pull the accumulator.
pub(crate) fn pla(opcode: u8, cpu: &mut CPU) -> (normal: bool)
    ensures
        (final(cpu)@, normal) == Instruction::PLA.execute_spec(opcode, old(cpu)@),
{
    let value = cpu.pull_from_stack();
    set_ac(cpu, value);
    true
}

/// Set the interrupt-disable flag.
pub(crate) fn sei(opcode: u8, cpu: &mut CPU) -> (normal: bool)
    ensures
        (final(cpu)@, normal) == Instruction::SEI.execute_spec(opcode, old(cpu)@),
{
    cpu.registers.sr.interrupt = true;
    true
}

/// Decrement Y.
pub(crate) fn dey(opcode: u8, cpu: &mut CPU) -> (normal: bool)
    ensures
        (final(cpu)@, normal) == Instruction::DEY.execute_spec(opcode, old(cpu)@),
{
    let r = cpu.registers;
    set_y(cpu, decrement(r.y));
    true
}

/// Copy Y to the accumulator.
pub(crate) fn tya(opcode: u8, cpu: &mut CPU) -> (normal: bool)
    ensures
        (final(cpu)@, normal) == Instruction::TYA.execute_spec(opcode, old(cpu)@),
{
    let r = cpu.registers;
    set_ac(cpu, r.y);
    true
}

/// Copy the accumulator to Y.
pub(crate) fn tay(opcode: u8, cpu: &mut CPU) -> (normal: bool)
    ensures
        (final(cpu)@, normal) == Instruction::TAY.execute_spec(opcode, old(cpu)@),
{
    let r = cpu.registers;
    set_y(cpu, r.ac);
    true
}

/// Clear the overflow flag.
pub(crate) fn clv(opcode: u8, cpu: &mut CPU) -> (normal: bool)
    ensures
        (final(cpu)@, normal) == Instruction::CLV.execute_spec(opcode, old(cpu)@),
{
    cpu.registers.sr.overflow = false;
    true
}

/// Increment Y.
pub(crate) fn iny(opcode: u8, cpu: &mut CPU) -> (normal: bool)
    ensures
        (final(cpu)@, normal) == Instruction::INY.execute_spec(opcode, old(cpu)@),
{
    let r = cpu.registers;
    set_y(cpu, increment(r.y));
    true
}

/// Clear the decimal flag.
pub(crate) fn cld(opcode: u8, cpu: &mut CPU) -> (normal: bool)
    ensures
        (final(cpu)@, normal) == Instruction::CLD.execute_spec(opcode, old(cpu)@),
{
    cpu.registers.sr.decimal = false;
    true
}

/// Increment X.
pub(crate) fn inx(opcode: u8, cpu: &mut CPU) -> (normal: bool)
    ensures
        (final(cpu)@, normal) == Instruction::INX.execute_spec(opcode, old(cpu)@),
{
    let r = cpu.registers;
    set_x(cpu, increment(r.x));
    true
}

/// Set the decimal flag.
pub(crate) fn sed(opcode: u8, cpu: &mut CPU) -> (normal: bool)
    ensures
        (final(cpu)@, normal) == Instruction::SED.execute_spec(opcode, old(cpu)@),
{
    cpu.registers.sr.decimal = true;
    true
}

/// Copy X to the accumulator.
pub(crate) fn txa(opcode: u8, cpu: &mut CPU) -> (normal: bool)
    ensures
        (final(cpu)@, normal) == Instruction::TXA.execute_spec(opcode, old(cpu)@),
{
    let r = cpu.registers;
    set_ac(cpu, r.x);
    true
}

/// Copy X to the stack pointer.
pub(crate) fn txs(opcode: u8, cpu: &mut CPU) -> (normal: bool)
    ensures
        (final(cpu)@, normal) == Instruction::TXS.execute_spec(opcode, old(cpu)@),
{
    let r = cpu.registers;
    cpu.registers.sp = r.x;
    true
}

/// Copy the accumulator to X.
pub(crate) fn tax(opcode: u8, cpu: &mut CPU) -> (normal: bool)
    ensures
        (final(cpu)@, normal) == Instruction::TAX.execute_spec(opcode, old(cpu)@),
{
    let r = cpu.registers;
    set_x(cpu, r.ac);
    true
}

/// Copy the stack pointer to X.
pub(crate) fn tsx(opcode: u8, cpu: &mut CPU) -> (normal: bool)
    ensures
        (final(cpu)@, normal) == Instruction::TSX.execute_spec(opcode, old(cpu)@),
{
    let r = cpu.registers;
    set_x(cpu, r.sp);
    true
}

/// Decrement X.
pub(crate) fn dex(opcode: u8, cpu: &mut CPU) -> (normal: bool)
    ensures
        (final(cpu)@, normal) == Instruction::DEX.execute_spec(opcode, old(cpu)@),
{
    let r = cpu.registers;
    set_x(cpu, decrement(r.x));
    true
}

/// Puts `value` in the accumulator and sets negative and zero from it.
fn set_ac(cpu: &mut CPU, value: u8)
    ensures
        final(cpu)@ == old(cpu)@.with_ac(value),
{
    cpu.registers.ac = value;
    cpu.set_nz(value);
}

/// Puts `value` in X and sets negative and zero from it.
fn set_x(cpu: &mut CPU, value: u8)
    ensures
        final(cpu)@ == old(cpu)@.with_x(value),
{
    cpu.registers.x = value;
    cpu.set_nz(value);
}

/// Puts `value` in Y and sets negative and zero from it.
fn set_y(cpu: &mut CPU, value: u8)
    ensures
        final(cpu)@ == old(cpu)@.with_y(value),
{
    cpu.registers.y = value;
    cpu.set_nz(value);
}

/// Compares `register` with `operand` and sets carry, negative and zero.
fn compare(cpu: &mut CPU, register: u8, operand: u8)
    ensures
        final(cpu)@ == old(cpu)@.compared(register, operand),
{
    cpu.registers.sr.carry = register >= operand;
    cpu.set_nz(register.wrapping_sub(operand));
}

/// Adds `operand` and the carry to the accumulator, in two wrapping steps.
fn add_with_carry(cpu: &mut CPU, operand: u8)
    ensures
        final(cpu)@ == old(cpu)@.added(operand),
{
    let accumulator = cpu.registers.ac;
    let carry: u8 = if cpu.registers.sr.carry { 1 } else { 0 };
    let partial = accumulator.wrapping_add(operand);
    let sum = partial.wrapping_add(carry);
    let signed_sum: i16 = signed_value(accumulator) + signed_value(operand) + carry as i16;
    cpu.registers.sr.carry = partial < accumulator || sum < partial;
    cpu.registers.sr.overflow = signed_sum < -128 || signed_sum > 127;
    set_ac(cpu, sum);
}

/// Subtracts `operand` and the carry from the accumulator, in two wrapping
/// steps.
fn subtract_with_carry(cpu: &mut CPU, operand: u8)
    ensures
        final(cpu)@ == old(cpu)@.subtracted(operand),
{
    let accumulator = cpu.registers.ac;
    let carry: u8 = if cpu.registers.sr.carry { 1 } else { 0 };
    let partial = accumulator.wrapping_sub(operand);
    let difference = partial.wrapping_sub(carry);
    let signed_difference: i16 = signed_value(accumulator) - signed_value(operand) - carry as i16;
    cpu.registers.sr.carry = accumulator < operand || partial < carry;
    cpu.registers.sr.overflow = signed_difference < -128 || signed_difference > 127;
    set_ac(cpu, difference);
}

/// Tests the bits of `operand` against the accumulator.
fn bit_test(cpu: &mut CPU, operand: u8)
    ensures
        final(cpu)@ == old(cpu)@.bit_tested(operand),
{
    cpu.registers.sr.negative = operand & 0x80 == 0x80;
    cpu.registers.sr.overflow = operand & 0x40 == 0x40;
    cpu.registers.sr.zero = cpu.registers.ac & operand == 0;
}

/// Reads through `mode`, then rewinds the program counter over the operand
/// bytes, so that a write through `mode` finds the same address.
fn reread(mode: Mode, cpu: &mut CPU) -> (operand: u8)
    ensures
        operand == mode.operand_value(old(cpu)@),
        final(cpu)@ == old(cpu)@,
{
    let operand = mode.get_memory(cpu);
    mode.rewind(cpu);
    operand
}

/// Shifts or rotates the accumulator, or the byte that `mode` resolves to.
fn shift_operand(instruction: &Instruction, mode: Mode, cpu: &mut CPU)
    ensures
        final(cpu)@ == instruction.shifted(mode, old(cpu)@),
{
    match mode {
        Mode::Accumulator => {
            let (result, carry) = instruction.shift(cpu.registers.ac);
            cpu.registers.sr.carry = carry;
            set_ac(cpu, result);
        },
        _ => {
            let value = reread(mode, cpu);
            let (result, carry) = instruction.shift(value);
            cpu.registers.sr.carry = carry;
            mode.set_memory(result, cpu);
        },
    }
}

/// Runs a branch: consumes the offset byte and, if `taken`, jumps.
fn branch(cpu: &mut CPU, taken: bool) -> (normal: bool)
    ensures
        (final(cpu)@, normal) == old(cpu)@.branched(taken),
{
    let target = Mode::Relative.resolve(cpu);
    if taken {
        cpu.registers.pc = target;
        false
    } else {
        true
    }
}

/// Pushes a word, high byte first.
fn push_word(cpu: &mut CPU, w: u16)
    ensures
        final(cpu)@ == old(cpu)@.push_word(w),
{
    cpu.push_to_stack(high_byte(w));
    cpu.push_to_stack(low_byte(w));
}

/// Pulls a word, low byte first.
fn pull_word(cpu: &mut CPU) -> (w: u16)
    ensures
        w == old(cpu)@.top_word(),
        final(cpu)@ == old(cpu)@.pulled().pulled(),
{
    let low = cpu.pull_from_stack();
    let high = cpu.pull_from_stack();
    make_word(low, high)
}

} // verus!
