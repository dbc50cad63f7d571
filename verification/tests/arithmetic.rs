use mos6502::cpu::CPU;
use mos6502::instructions::Instruction;

const ORIGIN: u16 = 0x0200;

fn with_program(program: &[u8]) -> CPU {
    let mut cpu = CPU::new();
    cpu.registers.pc = ORIGIN;
    let mut address = ORIGIN;
    for byte in program {
        cpu.set_memory_at_address(address, *byte);
        address = address.wrapping_add(1);
    }
    cpu
}

/// Runs ADC #operand; returns (accumulator, carry, overflow, negative, zero).
fn adc(accumulator: u8, operand: u8, carry: bool) -> (u8, bool, bool, bool, bool) {
    let mut cpu = with_program(&[0x69, operand]);
    cpu.registers.ac = accumulator;
    cpu.registers.sr.carry = carry;
    assert_eq!(cpu.step(), Ok(()));
    assert_eq!(cpu.registers.pc, ORIGIN + 2);
    let sr = cpu.registers.sr;
    (cpu.registers.ac, sr.carry, sr.overflow, sr.negative, sr.zero)
}

/// Runs SBC #operand; returns (accumulator, carry, overflow, negative, zero).
fn sbc(accumulator: u8, operand: u8, carry: bool) -> (u8, bool, bool, bool, bool) {
    let mut cpu = with_program(&[0xE9, operand]);
    cpu.registers.ac = accumulator;
    cpu.registers.sr.carry = carry;
    assert_eq!(cpu.step(), Ok(()));
    assert_eq!(cpu.registers.pc, ORIGIN + 2);
    let sr = cpu.registers.sr;
    (cpu.registers.ac, sr.carry, sr.overflow, sr.negative, sr.zero)
}

#[test]
fn adc_adds_operand_and_carry() {
    assert_eq!(adc(0x10, 0x20, false), (0x30, false, false, false, false));
    assert_eq!(adc(0x10, 0x20, true), (0x31, false, false, false, false));
    assert_eq!(adc(0x00, 0x00, false), (0x00, false, false, false, true));
    assert_eq!(adc(0x00, 0x00, true), (0x01, false, false, false, false));
}

#[test]
fn adc_sets_carry_when_the_sum_passes_255() {
    assert_eq!(adc(0xFF, 0x01, false), (0x00, true, false, false, true));
    assert_eq!(adc(0xFF, 0x00, true), (0x00, true, false, false, true));
    assert_eq!(adc(0xFF, 0xFF, true), (0xFF, true, false, true, false));
    assert_eq!(adc(0xFF, 0xFF, false), (0xFE, true, false, true, false));
    assert_eq!(adc(0x80, 0x7F, true), (0x00, true, false, false, true));
}

#[test]
fn adc_sets_overflow_when_the_signed_sum_leaves_the_range() {
    assert_eq!(adc(0x50, 0x50, false), (0xA0, false, true, true, false));
    assert_eq!(adc(0x50, 0x10, false), (0x60, false, false, false, false));
    assert_eq!(adc(0xD0, 0x90, false), (0x60, true, true, false, false));
    assert_eq!(adc(0x7F, 0x00, true), (0x80, false, true, true, false));
    assert_eq!(adc(0x7F, 0x01, false), (0x80, false, true, true, false));
    assert_eq!(adc(0x80, 0xFF, false), (0x7F, true, true, false, false));
    assert_eq!(adc(0x80, 0xFF, true), (0x80, true, false, true, false));
    assert_eq!(adc(0x80, 0x80, false), (0x00, true, true, false, true));
}

#[test]
fn adc_matches_wide_arithmetic_for_every_input() {
    for a in 0..=255u16 {
        for m in 0..=255u16 {
            for c in 0..=1u16 {
                let sum = a + m + c;
                let signed = (a as u8 as i8 as i16) + (m as u8 as i8 as i16) + c as i16;
                let (ac, carry, overflow, negative, zero) = adc(a as u8, m as u8, c == 1);
                assert_eq!(ac, (sum % 256) as u8);
                assert_eq!(carry, sum > 255);
                assert_eq!(overflow, !(-128..=127).contains(&signed));
                assert_eq!(negative, ac & 0x80 == 0x80);
                assert_eq!(zero, ac == 0);
            }
        }
    }
}

#[test]
fn adc_reads_through_every_mode() {
    let cases: [(&[u8], u16); 7] = [
        (&[0x65, 0x10], 2),
        (&[0x75, 0x0E], 2),
        (&[0x6D, 0x00, 0x50], 3),
        (&[0x7D, 0xFE, 0x4F], 3),
        (&[0x79, 0xFD, 0x4F], 3),
        (&[0x61, 0x1E, 0x00], 3),
        (&[0x71, 0x30, 0x00], 3),
    ];
    for (program, length) in cases {
        let mut cpu = with_program(program);
        cpu.registers.ac = 0x01;
        cpu.registers.x = 0x02;
        cpu.registers.y = 0x03;
        cpu.set_memory_at_address(0x0010, 0x07);
        cpu.set_memory_at_address(0x5000, 0x07);
        cpu.set_memory_at_address(0x0020, 0x00);
        cpu.set_memory_at_address(0x0021, 0x50);
        cpu.set_memory_at_address(0x0030, 0xFD);
        cpu.set_memory_at_address(0x0031, 0x4F);
        assert_eq!(cpu.step(), Ok(()));
        assert_eq!(cpu.registers.ac, 0x08);
        assert_eq!(cpu.registers.pc, ORIGIN + length);
    }
}

#[test]
fn sbc_subtracts_operand_and_carry() {
    assert_eq!(sbc(0x05, 0x03, false), (0x02, false, false, false, false));
    assert_eq!(sbc(0x05, 0x03, true), (0x01, false, false, false, false));
    assert_eq!(sbc(0x05, 0x05, false), (0x00, false, false, false, true));
    assert_eq!(sbc(0x05, 0x04, true), (0x00, false, false, false, true));
}

#[test]
fn sbc_sets_carry_when_the_difference_falls_below_zero() {
    assert_eq!(sbc(0x03, 0x05, false), (0xFE, true, false, true, false));
    assert_eq!(sbc(0x00, 0x00, true), (0xFF, true, false, true, false));
    assert_eq!(sbc(0x05, 0x05, true), (0xFF, true, false, true, false));
    assert_eq!(sbc(0x00, 0xFF, true), (0x00, true, false, false, true));
}

#[test]
fn sbc_sets_overflow_when_the_signed_difference_leaves_the_range() {
    assert_eq!(sbc(0x80, 0x01, false), (0x7F, false, true, false, false));
    assert_eq!(sbc(0x7F, 0xFF, false), (0x80, true, true, true, false));
    assert_eq!(sbc(0x80, 0x00, true), (0x7F, false, true, false, false));
    assert_eq!(sbc(0x7F, 0x80, false), (0xFF, true, true, true, false));
    assert_eq!(sbc(0x00, 0x80, false), (0x80, true, true, true, false));
    assert_eq!(sbc(0x00, 0x80, true), (0x7F, true, false, false, false));
}

#[test]
fn sbc_matches_wide_arithmetic_for_every_input() {
    for a in 0..=255i16 {
        for m in 0..=255i16 {
            for c in 0..=1i16 {
                let difference = a - m - c;
                let signed = (a as u8 as i8 as i16) - (m as u8 as i8 as i16) - c;
                let (ac, carry, overflow, negative, zero) = sbc(a as u8, m as u8, c == 1);
                assert_eq!(ac, difference.rem_euclid(256) as u8);
                assert_eq!(carry, difference < 0);
                assert_eq!(overflow, !(-128..=127).contains(&signed));
                assert_eq!(negative, ac & 0x80 == 0x80);
                assert_eq!(zero, ac == 0);
            }
        }
    }
}

#[test]
fn logic_instructions_combine_accumulator_and_operand() {
    let mut cpu = with_program(&[0x29, 0x0F]);
    cpu.registers.ac = 0x3C;
    cpu.step().unwrap();
    assert_eq!(cpu.registers.ac, 0x0C);
    assert_eq!(cpu.registers.pc, ORIGIN + 2);

    let mut cpu = with_program(&[0x09, 0x0F]);
    cpu.registers.ac = 0x30;
    cpu.step().unwrap();
    assert_eq!(cpu.registers.ac, 0x3F);

    let mut cpu = with_program(&[0x49, 0xFF]);
    cpu.registers.ac = 0x0F;
    cpu.step().unwrap();
    assert_eq!(cpu.registers.ac, 0xF0);
    assert!(cpu.registers.sr.negative);
}

#[test]
fn logic_instructions_set_negative_and_zero_at_the_boundaries() {
    for (opcode, accumulator, operand, result) in [
        (0x29u8, 0xF0u8, 0x0Fu8, 0x00u8),
        (0x29, 0xFF, 0x7F, 0x7F),
        (0x29, 0xFF, 0x80, 0x80),
        (0x29, 0xFF, 0xFF, 0xFF),
        (0x09, 0x00, 0x00, 0x00),
        (0x09, 0x70, 0x0F, 0x7F),
        (0x09, 0x00, 0x80, 0x80),
        (0x09, 0xF0, 0x0F, 0xFF),
        (0x49, 0xAA, 0xAA, 0x00),
        (0x49, 0x80, 0xFF, 0x7F),
        (0x49, 0x7F, 0xFF, 0x80),
        (0x49, 0x00, 0xFF, 0xFF),
    ] {
        let mut cpu = with_program(&[opcode, operand]);
        cpu.registers.ac = accumulator;
        cpu.registers.sr.carry = true;
        cpu.registers.sr.overflow = true;
        cpu.step().unwrap();
        assert_eq!(cpu.registers.ac, result);
        assert_eq!(cpu.registers.sr.negative, result & 0x80 == 0x80);
        assert_eq!(cpu.registers.sr.zero, result == 0);
        assert!(cpu.registers.sr.carry);
        assert!(cpu.registers.sr.overflow);
    }
}

#[test]
fn logic_instructions_read_through_memory_modes() {
    let mut cpu = with_program(&[0x2D, 0x00, 0x50]);
    cpu.registers.ac = 0xFF;
    cpu.set_memory_at_address(0x5000, 0x18);
    cpu.step().unwrap();
    assert_eq!((cpu.registers.ac, cpu.registers.pc), (0x18, ORIGIN + 3));
    let mut cpu = with_program(&[0x15, 0x10]);
    cpu.registers.x = 0x01;
    cpu.set_memory_at_address(0x0011, 0x81);
    cpu.step().unwrap();
    assert_eq!((cpu.registers.ac, cpu.registers.pc), (0x81, ORIGIN + 2));
    let mut cpu = with_program(&[0x51, 0x10, 0x00]);
    cpu.registers.ac = 0xFF;
    cpu.registers.y = 0x01;
    cpu.set_memory_at_address(0x0010, 0xFF);
    cpu.set_memory_at_address(0x0011, 0x4F);
    cpu.set_memory_at_address(0x5000, 0x0F);
    cpu.step().unwrap();
    assert_eq!((cpu.registers.ac, cpu.registers.pc), (0xF0, ORIGIN + 3));
}

#[test]
fn compare_sets_carry_unless_it_borrows() {
    for (register, operand, carry, zero, negative) in [
        (0x05u8, 0x05u8, true, true, false),
        (0x06, 0x05, true, false, false),
        (0x05, 0x06, false, false, true),
        (0x00, 0x00, true, true, false),
        (0x00, 0x01, false, false, true),
        (0xFF, 0x00, true, false, true),
        (0x00, 0xFF, false, false, false),
        (0x80, 0x7F, true, false, false),
        (0x7F, 0x80, false, false, true),
        (0xFF, 0xFF, true, true, false),
    ] {
        for (opcode, which) in [(0xC9u8, 0), (0xE0, 1), (0xC0, 2)] {
            let mut cpu = with_program(&[opcode, operand]);
            match which {
                0 => cpu.registers.ac = register,
                1 => cpu.registers.x = register,
                _ => cpu.registers.y = register,
            }
            cpu.registers.sr.carry = !carry;
            cpu.registers.sr.overflow = true;
            assert_eq!(cpu.step(), Ok(()));
            assert_eq!(cpu.registers.sr.carry, carry);
            assert_eq!(cpu.registers.sr.zero, zero);
            assert_eq!(cpu.registers.sr.negative, negative);
            assert!(cpu.registers.sr.overflow);
            assert_eq!(cpu.registers.pc, ORIGIN + 2);
            match which {
                0 => assert_eq!(cpu.registers.ac, register),
                1 => assert_eq!(cpu.registers.x, register),
                _ => assert_eq!(cpu.registers.y, register),
            }
        }
    }
}

#[test]
fn compare_reads_through_memory_modes() {
    let mut cpu = with_program(&[0xCD, 0x00, 0x50]);
    cpu.registers.ac = 0x10;
    cpu.set_memory_at_address(0x5000, 0x10);
    cpu.step().unwrap();
    assert!(cpu.registers.sr.zero);
    assert_eq!(cpu.registers.pc, ORIGIN + 3);
    let mut cpu = with_program(&[0xE4, 0x10]);
    cpu.registers.x = 0x10;
    cpu.set_memory_at_address(0x0010, 0x11);
    cpu.step().unwrap();
    assert!(!cpu.registers.sr.zero);
    assert!(!cpu.registers.sr.carry);
    assert_eq!(cpu.registers.pc, ORIGIN + 2);
    let mut cpu = with_program(&[0xCC, 0x00, 0x50]);
    cpu.registers.y = 0x12;
    cpu.set_memory_at_address(0x5000, 0x11);
    cpu.step().unwrap();
    assert!(cpu.registers.sr.carry);
    assert!(!cpu.registers.sr.zero);
    assert_eq!(cpu.registers.pc, ORIGIN + 3);
}

#[test]
fn bit_copies_bits_seven_and_six_and_tests_the_accumulator() {
    let mut cpu = with_program(&[0x24, 0x10]);
    cpu.registers.ac = 0x0F;
    cpu.set_memory_at_address(0x0010, 0xC0);
    cpu.step().unwrap();
    assert!(cpu.registers.sr.negative);
    assert!(cpu.registers.sr.overflow);
    assert!(cpu.registers.sr.zero);
    assert_eq!(cpu.registers.ac, 0x0F);
    assert_eq!(cpu.registers.pc, ORIGIN + 2);

    let mut cpu = with_program(&[0x2C, 0x00, 0x50]);
    cpu.registers.ac = 0xFF;
    cpu.set_memory_at_address(0x5000, 0x40);
    cpu.registers.sr.negative = true;
    cpu.step().unwrap();
    assert!(!cpu.registers.sr.negative);
    assert!(cpu.registers.sr.overflow);
    assert!(!cpu.registers.sr.zero);
    assert_eq!(cpu.registers.pc, ORIGIN + 3);

    let mut cpu = with_program(&[0x24, 0x10]);
    cpu.registers.ac = 0x20;
    cpu.set_memory_at_address(0x0010, 0xA0);
    cpu.registers.sr.overflow = true;
    cpu.step().unwrap();
    assert!(cpu.registers.sr.negative);
    assert!(!cpu.registers.sr.overflow);
    assert!(!cpu.registers.sr.zero);
}

#[test]
fn shifts_and_rotates_of_the_accumulator() {
    for (opcode, value, result, carry) in [
        (0x0Au8, 0x81u8, 0x02u8, true),
        (0x0A, 0x80, 0x00, true),
        (0x0A, 0x40, 0x80, false),
        (0x0A, 0x00, 0x00, false),
        (0x0A, 0xFF, 0xFE, true),
        (0x4A, 0x01, 0x00, true),
        (0x4A, 0x80, 0x40, false),
        (0x4A, 0xFF, 0x7F, true),
        (0x4A, 0x00, 0x00, false),
        (0x2A, 0x81, 0x03, true),
        (0x2A, 0x40, 0x80, false),
        (0x2A, 0x80, 0x01, true),
        (0x2A, 0x00, 0x00, false),
        (0x2A, 0xFF, 0xFF, true),
        (0x6A, 0x01, 0x80, true),
        (0x6A, 0x02, 0x01, false),
        (0x6A, 0x81, 0xC0, true),
        (0x6A, 0x00, 0x00, false),
        (0x6A, 0xFF, 0xFF, true),
    ] {
        for carry_before in [false, true] {
            let mut cpu = with_program(&[opcode]);
            cpu.registers.ac = value;
            cpu.registers.sr.carry = carry_before;
            cpu.set_memory_at_address(0x0000, 0x33);
            assert_eq!(cpu.step(), Ok(()));
            assert_eq!(cpu.registers.ac, result);
            assert_eq!(cpu.registers.sr.carry, carry);
            assert_eq!(cpu.registers.sr.negative, result & 0x80 == 0x80);
            assert_eq!(cpu.registers.sr.zero, result == 0);
            assert_eq!(cpu.registers.pc, ORIGIN + 1);
            assert_eq!(cpu.get_umemory_at_address(0x0000), 0x33);
        }
    }
}

#[test]
fn shifts_and_rotates_of_memory_write_back_to_the_same_address() {
    let cases: [(&[u8], u16, u16, u8, u8, bool); 8] = [
        (&[0x06, 0x10], 0x0010, 2, 0x40, 0x80, false),
        (&[0x16, 0x10], 0x0012, 2, 0x81, 0x02, true),
        (&[0x0E, 0x00, 0x50], 0x5000, 3, 0x01, 0x02, false),
        (&[0x1E, 0x00, 0x50], 0x5002, 3, 0x80, 0x00, true),
        (&[0x46, 0x10], 0x0010, 2, 0x03, 0x01, true),
        (&[0x5E, 0x00, 0x50], 0x5002, 3, 0x80, 0x40, false),
        (&[0x2E, 0x00, 0x50], 0x5000, 3, 0x81, 0x03, true),
        (&[0x76, 0x10], 0x0012, 2, 0x01, 0x80, true),
    ];
    for (program, address, length, value, result, carry) in cases {
        let mut cpu = with_program(program);
        cpu.registers.x = 0x02;
        cpu.registers.ac = 0x5A;
        cpu.registers.sr.carry = !carry;
        cpu.set_memory_at_address(address, value);
        assert_eq!(cpu.step(), Ok(()));
        assert_eq!(cpu.get_umemory_at_address(address), result);
        assert_eq!(cpu.registers.pc, ORIGIN + length);
        assert_eq!(cpu.registers.sr.carry, carry);
        assert_eq!(cpu.registers.sr.negative, result & 0x80 == 0x80);
        assert_eq!(cpu.registers.sr.zero, result == 0);
        assert_eq!(cpu.registers.ac, 0x5A);
    }
}

#[test]
fn shift_returns_result_and_bit_moved_out() {
    assert_eq!(Instruction::ASL.shift(0xC1), (0x82, true));
    assert_eq!(Instruction::LSR.shift(0xC1), (0x60, true));
    assert_eq!(Instruction::ROL.shift(0xC1), (0x83, true));
    assert_eq!(Instruction::ROR.shift(0xC1), (0xE0, true));
    assert_eq!(Instruction::ASL.shift(0x42), (0x84, false));
    assert_eq!(Instruction::LSR.shift(0x42), (0x21, false));
    assert_eq!(Instruction::ROL.shift(0x42), (0x84, false));
    assert_eq!(Instruction::ROR.shift(0x42), (0x21, false));
    assert_eq!(Instruction::NOP.shift(0x42), (0x42, false));
}

#[test]
fn inc_and_dec_of_memory_wrap_and_set_flags() {
    let cases: [(&[u8], u16, u16, u8, u8); 10] = [
        (&[0xE6, 0x10], 0x0010, 2, 0xFF, 0x00),
        (&[0xE6, 0x10], 0x0010, 2, 0x7F, 0x80),
        (&[0xF6, 0x10], 0x0012, 2, 0x00, 0x01),
        (&[0xEE, 0x00, 0x50], 0x5000, 3, 0xFE, 0xFF),
        (&[0xFE, 0x00, 0x50], 0x5002, 3, 0x41, 0x42),
        (&[0xC6, 0x10], 0x0010, 2, 0x00, 0xFF),
        (&[0xC6, 0x10], 0x0010, 2, 0x01, 0x00),
        (&[0xD6, 0x10], 0x0012, 2, 0x80, 0x7F),
        (&[0xCE, 0x00, 0x50], 0x5000, 3, 0xFF, 0xFE),
        (&[0xDE, 0x00, 0x50], 0x5002, 3, 0x42, 0x41),
    ];
    for (program, address, length, value, result) in cases {
        let mut cpu = with_program(program);
        cpu.registers.x = 0x02;
        cpu.registers.sr.carry = true;
        cpu.set_memory_at_address(address, value);
        assert_eq!(cpu.step(), Ok(()));
        assert_eq!(cpu.get_umemory_at_address(address), result);
        assert_eq!(cpu.registers.pc, ORIGIN + length);
        assert_eq!(cpu.registers.sr.negative, result & 0x80 == 0x80);
        assert_eq!(cpu.registers.sr.zero, result == 0);
        assert!(cpu.registers.sr.carry);
        assert_eq!(cpu.registers.ac, 0);
    }
}
