//! End-to-end scenarios: whole programs run from a loaded memory image.

use chip8_core::engine::Status;
use chip8_core::fault::VmError;
use chip8_core::state::CPU;

/// Writes the 16-bit word `op` big-endian at memory address `addr`.
fn write_op(cpu: &mut CPU, addr: usize, op: u16) {
    cpu.memory[addr] = (op >> 8) as u8;
    cpu.memory[addr + 1] = (op & 0x00FF) as u8;
}

/// Loads the subroutine used by the call scenarios at 0x100:
/// add-registers V0,V1 twice, then return.
fn load_add_twice_subroutine(cpu: &mut CPU) {
    write_op(cpu, 0x100, 0x8014);
    write_op(cpu, 0x102, 0x8014);
    write_op(cpu, 0x104, 0x00EE);
}

#[test]
fn one_call_of_the_add_twice_subroutine() {
    let mut cpu = CPU::new(0);
    cpu.registers[0] = 5;
    cpu.registers[1] = 10;
    write_op(&mut cpu, 0x000, 0x2100);
    write_op(&mut cpu, 0x002, 0x0000);
    load_add_twice_subroutine(&mut cpu);
    assert_eq!(cpu.run(100), Ok(Status::Halted));
    // V0 = 5 + 10 + 10 = 25, no 8-bit overflow anywhere
    assert_eq!(cpu.registers[0], 25);
    assert_eq!(cpu.registers[0xF], 0);
    assert_eq!(cpu.stack_pointer, 0);
}

#[test]
fn two_calls_of_the_add_twice_subroutine() {
    let mut cpu = CPU::new(0);
    cpu.registers[0] = 5;
    cpu.registers[1] = 10;
    write_op(&mut cpu, 0x000, 0x2100);
    write_op(&mut cpu, 0x002, 0x2100);
    write_op(&mut cpu, 0x004, 0x0000);
    load_add_twice_subroutine(&mut cpu);
    assert_eq!(cpu.run(100), Ok(Status::Halted));
    // 5 + (10 * 2) + (10 * 2) = 45
    assert_eq!(cpu.registers[0], 45);
    assert_eq!(cpu.registers[1], 10);
    assert_eq!(cpu.stack_pointer, 0);
    // the counter rests one word past the halt sentinel
    assert_eq!(cpu.position_in_memory, 6);
}

#[test]
fn seventeen_nested_calls_overflow_the_stack() {
    let mut cpu = CPU::new(0);
    // seventeen call opcodes, each calling the next, none returning
    for i in 0..17usize {
        let target = (2 * (i + 1)) as u16;
        write_op(&mut cpu, 2 * i, 0x2000 | target);
    }
    assert_eq!(cpu.run(100), Err(VmError::StackOverflow));
    // the first sixteen frames were pushed; the seventeenth call failed
    assert_eq!(cpu.stack_pointer, 16);
    assert_eq!(cpu.position_in_memory, 32);
}

#[test]
fn sixteen_nested_calls_still_fit() {
    let mut cpu = CPU::new(0);
    for i in 0..16usize {
        let target = (2 * (i + 1)) as u16;
        write_op(&mut cpu, 2 * i, 0x2000 | target);
    }
    // halt right after the sixteenth call target
    write_op(&mut cpu, 32, 0x0000);
    assert_eq!(cpu.run(100), Ok(Status::Halted));
    assert_eq!(cpu.stack_pointer, 16);
}

#[test]
fn unknown_opcode_reports_the_offending_word() {
    let mut cpu = CPU::new(0);
    write_op(&mut cpu, 0, 0xFFFF);
    assert_eq!(cpu.run(10), Err(VmError::UnimplementedOpcode(0xFFFF)));
}

#[test]
fn unresolved_alu_selector_is_unimplemented() {
    let mut cpu = CPU::new(0);
    write_op(&mut cpu, 0, 0x8015);
    assert_eq!(cpu.run(10), Err(VmError::UnimplementedOpcode(0x8015)));
}

#[test]
fn repeated_runs_are_bit_identical() {
    let mut finals: Vec<(Vec<u8>, Vec<u8>, usize, usize)> = Vec::new();
    for _ in 0..2 {
        let mut cpu = CPU::new(0);
        cpu.registers[0] = 5;
        cpu.registers[1] = 10;
        write_op(&mut cpu, 0x000, 0x2100);
        write_op(&mut cpu, 0x002, 0x2100);
        write_op(&mut cpu, 0x004, 0x0000);
        load_add_twice_subroutine(&mut cpu);
        assert_eq!(cpu.run(1000), Ok(Status::Halted));
        finals.push((
            cpu.registers.clone(),
            cpu.memory.clone(),
            cpu.position_in_memory,
            cpu.stack_pointer,
        ));
    }
    assert_eq!(finals[0], finals[1]);
}

#[test]
fn straight_line_code_advances_by_two_each_cycle() {
    let mut cpu = CPU::new(0);
    write_op(&mut cpu, 0, 0x6005);
    write_op(&mut cpu, 2, 0x7001);
    write_op(&mut cpu, 4, 0x8103);
    for i in 0..3usize {
        assert_eq!(cpu.position_in_memory, 2 * i);
        assert_eq!(cpu.step(), Ok(Status::Running));
        assert_eq!(cpu.position_in_memory, 2 * (i + 1));
    }
}

#[test]
fn entry_offset_is_a_configuration_value() {
    let mut cpu = CPU::new(0x200);
    write_op(&mut cpu, 0x200, 0x6321);
    assert_eq!(cpu.run(10), Ok(Status::Halted));
    assert_eq!(cpu.registers[3], 0x21);
    assert_eq!(cpu.position_in_memory, 0x204);
}
