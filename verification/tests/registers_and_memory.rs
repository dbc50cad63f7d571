use mos6502::cpu::{Registers, StatRegister, CPU, MEMORY_FILL};

#[test]
fn registers_start_at_zero_with_flags_clear() {
    let r = Registers::new();
    assert_eq!(r.pc, 0);
    assert_eq!(r.ac, 0);
    assert_eq!(r.x, 0);
    assert_eq!(r.y, 0);
    assert_eq!(r.sp, 0);
    assert_eq!(u8::from(r.sr), 0);
    assert_eq!(r.sr, StatRegister::from(0));
}

#[test]
fn increment_pc_returns_the_new_value() {
    let mut r = Registers::new();
    assert_eq!(r.increment_pc(), 1);
    assert_eq!(r.pc, 1);
    assert_eq!(r.increment_pc(), 2);
    assert_eq!(r.pc, 2);
}

#[test]
fn increment_pc_wraps_from_ffff_to_zero() {
    let mut r = Registers::new();
    r.pc = 0xFFFF;
    assert_eq!(r.increment_pc(), 0x0000);
    assert_eq!(r.pc, 0x0000);
}

#[test]
fn decrement_pc_wraps_from_zero_to_ffff() {
    let mut r = Registers::new();
    assert_eq!(r.decrement_pc(), 0xFFFF);
    assert_eq!(r.pc, 0xFFFF);
    assert_eq!(r.decrement_pc(), 0xFFFE);
}

#[test]
fn increment_pc_by_adds_modulo_65536() {
    let mut r = Registers::new();
    assert_eq!(r.increment_pc_by(0x1234), 0x1234);
    assert_eq!(r.increment_pc_by(0xF000), 0x0234);
    assert_eq!(r.pc, 0x0234);
    assert_eq!(r.increment_pc_by(0), 0x0234);
    r.pc = 0xFFFF;
    assert_eq!(r.increment_pc_by(0xFFFF), 0xFFFE);
}

#[test]
fn pc_moves_leave_the_other_registers_alone() {
    let mut r = Registers::new();
    r.ac = 1;
    r.x = 2;
    r.y = 3;
    r.sp = 4;
    r.sr.carry = true;
    r.increment_pc();
    r.increment_pc_by(7);
    r.decrement_pc();
    assert_eq!((r.pc, r.ac, r.x, r.y, r.sp), (7, 1, 2, 3, 4));
    assert_eq!(u8::from(r.sr), 0x01);
}

#[test]
fn a_new_processor_is_at_power_on() {
    let cpu = CPU::new();
    assert_eq!(cpu.registers, Registers::new());
    assert_eq!(cpu.memory.len(), 0x10000);
    assert_eq!(cpu.stack.len(), 0x100);
    assert!(cpu.memory.iter().all(|byte| *byte == MEMORY_FILL));
    assert!(cpu.stack.iter().all(|byte| *byte == 0));
    assert_eq!(MEMORY_FILL, 0xEA);
    assert_eq!(cpu.instructions.len(), 55);
}

#[test]
fn a_byte_written_is_the_byte_read() {
    let mut cpu = CPU::new();
    for address in [0x0000u16, 0x0001, 0x00FF, 0x0100, 0x1234, 0x7FFF, 0x8000, 0xFFFE, 0xFFFF] {
        for value in [0x00u8, 0x01, 0x7F, 0x80, 0xFF] {
            cpu.set_memory_at_address(address, value);
            assert_eq!(cpu.get_umemory_at_address(address), value);
            assert_eq!(cpu.get_memory_at_address(address), value as i16);
        }
    }
}

#[test]
fn every_address_holds_its_own_byte() {
    let mut cpu = CPU::new();
    for address in 0..=0xFFFFu16 {
        cpu.set_memory_at_address(address, (address % 251) as u8);
    }
    for address in 0..=0xFFFFu16 {
        assert_eq!(cpu.get_umemory_at_address(address), (address % 251) as u8);
    }
}

#[test]
fn a_write_touches_one_cell_only() {
    let mut cpu = CPU::new();
    cpu.set_memory_at_address(0x2000, 0x11);
    assert_eq!(cpu.get_umemory_at_address(0x1FFF), MEMORY_FILL);
    assert_eq!(cpu.get_umemory_at_address(0x2001), MEMORY_FILL);
    assert_eq!(cpu.registers, Registers::new());
    assert!(cpu.stack.iter().all(|byte| *byte == 0));
}

#[test]
fn reading_memory_changes_nothing() {
    let mut cpu = CPU::new();
    cpu.set_memory_at_address(0xFFFF, 0x80);
    assert_eq!(cpu.get_memory_at_address(0xFFFF), 0x80);
    assert_eq!(cpu.get_umemory_at_address(0xFFFF), 0x80);
    assert_eq!(cpu.registers.pc, 0);
}

#[test]
fn push_stores_at_the_pointer_then_moves_it_up() {
    let mut cpu = CPU::new();
    cpu.push_to_stack(0xAB);
    assert_eq!(cpu.stack[0], 0xAB);
    assert_eq!(cpu.registers.sp, 1);
    cpu.push_to_stack(0xCD);
    assert_eq!(cpu.stack[1], 0xCD);
    assert_eq!(cpu.registers.sp, 2);
}

#[test]
fn pull_moves_the_pointer_down_then_reads() {
    let mut cpu = CPU::new();
    cpu.push_to_stack(0xAB);
    cpu.push_to_stack(0xCD);
    assert_eq!(cpu.pull_from_stack(), 0xCD);
    assert_eq!(cpu.registers.sp, 1);
    assert_eq!(cpu.pull_from_stack(), 0xAB);
    assert_eq!(cpu.registers.sp, 0);
}

#[test]
fn stack_pointer_wraps_down_from_zero_to_ff() {
    let mut cpu = CPU::new();
    cpu.stack[0xFF] = 0x77;
    assert_eq!(cpu.registers.sp, 0x00);
    assert_eq!(cpu.pull_from_stack(), 0x77);
    assert_eq!(cpu.registers.sp, 0xFF);
}

#[test]
fn stack_pointer_wraps_up_from_ff_to_zero() {
    let mut cpu = CPU::new();
    cpu.registers.sp = 0xFF;
    cpu.push_to_stack(0x42);
    assert_eq!(cpu.stack[0xFF], 0x42);
    assert_eq!(cpu.registers.sp, 0x00);
    cpu.push_to_stack(0x43);
    assert_eq!(cpu.stack[0x00], 0x43);
    assert_eq!(cpu.registers.sp, 0x01);
}

#[test]
fn the_stack_is_apart_from_memory() {
    let mut cpu = CPU::new();
    cpu.push_to_stack(0x12);
    assert_eq!(cpu.get_umemory_at_address(0x0000), MEMORY_FILL);
    assert_eq!(cpu.get_umemory_at_address(0x0100), MEMORY_FILL);
    cpu.set_memory_at_address(0x0100, 0x99);
    assert_eq!(cpu.stack[0], 0x12);
}

#[test]
fn three_hundred_pushes_wrap_around_the_stack() {
    let mut cpu = CPU::new();
    for i in 0..300u16 {
        cpu.push_to_stack((i % 256) as u8);
    }
    assert_eq!(cpu.registers.sp, 44);
    assert_eq!(cpu.stack[43], 43);
    assert_eq!(cpu.stack[44], 44);
    assert_eq!(cpu.pull_from_stack(), 43);
}

#[test]
fn set_nz_follows_bit_seven_and_zero() {
    let mut cpu = CPU::new();
    cpu.registers.sr.carry = true;
    for (value, negative, zero) in
        [(0x00u8, false, true), (0x01, false, false), (0x7F, false, false), (0x80, true, false), (0xFF, true, false)]
    {
        cpu.set_nz(value);
        assert_eq!(cpu.registers.sr.negative, negative);
        assert_eq!(cpu.registers.sr.zero, zero);
        assert!(cpu.registers.sr.carry);
    }
}
