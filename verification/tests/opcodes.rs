//! Per-opcode behaviour, exercised through the public machine cycle.

use chip8_core::engine::Status;
use chip8_core::fault::VmError;
use chip8_core::state::CPU;

/// Writes the 16-bit word `op` big-endian at memory address `addr`.
fn write_op(cpu: &mut CPU, addr: usize, op: u16) {
    cpu.memory[addr] = (op >> 8) as u8;
    cpu.memory[addr + 1] = (op & 0x00FF) as u8;
}

#[test]
fn halt_advances_the_counter_and_nothing_else() {
    let mut cpu = CPU::new(0);
    cpu.registers[3] = 9;
    let r = cpu.run(1000);
    assert_eq!(r, Ok(Status::Halted));
    // the halt cycle advances the counter past the sentinel, its only mutation
    assert_eq!(cpu.position_in_memory, 2);
    assert_eq!(cpu.registers[3], 9);
    assert_eq!(cpu.stack_pointer, 0);
    assert_eq!(cpu.clear_signals, 0);
}

#[test]
fn each_halt_cycle_advances_by_one_word() {
    let mut cpu = CPU::new(0);
    assert_eq!(cpu.step(), Ok(Status::Halted));
    assert_eq!(cpu.position_in_memory, 2);
    assert_eq!(cpu.step(), Ok(Status::Halted));
    assert_eq!(cpu.position_in_memory, 4);
}

#[test]
fn load_immediate_sets_register() {
    let mut cpu = CPU::new(0);
    write_op(&mut cpu, 0, 0x6A77);
    assert_eq!(cpu.run(10), Ok(Status::Halted));
    assert_eq!(cpu.registers[0xA], 0x77);
    assert_eq!(cpu.position_in_memory, 4);
}

#[test]
fn copy_register_reads_vy_not_the_nibble() {
    let mut cpu = CPU::new(0);
    cpu.registers[5] = 123;
    write_op(&mut cpu, 0, 0x8150);
    assert_eq!(cpu.run(10), Ok(Status::Halted));
    assert_eq!(cpu.registers[1], 123);
}

#[test]
fn add_immediate_wraps_on_overflow() {
    let mut cpu = CPU::new(0);
    cpu.registers[0] = 200;
    cpu.registers[0xF] = 7;
    write_op(&mut cpu, 0, 0x7064);
    assert_eq!(cpu.run(10), Ok(Status::Halted));
    assert_eq!(cpu.registers[0], 44);
    // add-immediate reports no carry: VF is untouched
    assert_eq!(cpu.registers[0xF], 7);
}

#[test]
fn add_immediate_without_overflow() {
    let mut cpu = CPU::new(0);
    cpu.registers[2] = 40;
    write_op(&mut cpu, 0, 0x7202);
    assert_eq!(cpu.run(10), Ok(Status::Halted));
    assert_eq!(cpu.registers[2], 42);
}

#[test]
fn add_registers_wraps_and_sets_carry() {
    let mut cpu = CPU::new(0);
    cpu.registers[0] = 200;
    cpu.registers[1] = 100;
    write_op(&mut cpu, 0, 0x8014);
    assert_eq!(cpu.run(10), Ok(Status::Halted));
    assert_eq!(cpu.registers[0], 44);
    assert_eq!(cpu.registers[0xF], 1);
}

#[test]
fn add_registers_clears_carry_without_overflow() {
    let mut cpu = CPU::new(0);
    cpu.registers[0] = 5;
    cpu.registers[1] = 10;
    cpu.registers[0xF] = 1;
    write_op(&mut cpu, 0, 0x8014);
    assert_eq!(cpu.run(10), Ok(Status::Halted));
    assert_eq!(cpu.registers[0], 15);
    assert_eq!(cpu.registers[0xF], 0);
}

#[test]
fn bitwise_or_and_xor() {
    let mut cpu = CPU::new(0);
    cpu.registers[2] = 0b1100;
    cpu.registers[3] = 0b1010;
    write_op(&mut cpu, 0, 0x8231);
    assert_eq!(cpu.run(10), Ok(Status::Halted));
    assert_eq!(cpu.registers[2], 0b1110);

    let mut cpu = CPU::new(0);
    cpu.registers[2] = 0b1100;
    cpu.registers[3] = 0b1010;
    write_op(&mut cpu, 0, 0x8232);
    assert_eq!(cpu.run(10), Ok(Status::Halted));
    assert_eq!(cpu.registers[2], 0b1000);

    let mut cpu = CPU::new(0);
    cpu.registers[2] = 0b1100;
    cpu.registers[3] = 0b1010;
    write_op(&mut cpu, 0, 0x8233);
    assert_eq!(cpu.run(10), Ok(Status::Halted));
    assert_eq!(cpu.registers[2], 0b0110);
}

#[test]
fn jump_redirects_the_counter() {
    let mut cpu = CPU::new(0);
    write_op(&mut cpu, 0, 0x1200);
    write_op(&mut cpu, 0x200, 0x6109);
    assert_eq!(cpu.run(10), Ok(Status::Halted));
    assert_eq!(cpu.registers[1], 9);
    assert_eq!(cpu.position_in_memory, 0x204);
}

#[test]
fn skip_if_equal_skips_exactly_on_equality() {
    // V0 == 7: the load after the skip must not run
    let mut cpu = CPU::new(0);
    cpu.registers[0] = 7;
    write_op(&mut cpu, 0, 0x3007);
    write_op(&mut cpu, 2, 0x6199);
    assert_eq!(cpu.run(10), Ok(Status::Halted));
    assert_eq!(cpu.registers[1], 0);
    assert_eq!(cpu.position_in_memory, 6);

    // V0 != 7: the load runs
    let mut cpu = CPU::new(0);
    cpu.registers[0] = 8;
    write_op(&mut cpu, 0, 0x3007);
    write_op(&mut cpu, 2, 0x6199);
    assert_eq!(cpu.run(10), Ok(Status::Halted));
    assert_eq!(cpu.registers[1], 0x99);
}

#[test]
fn skip_if_not_equal_is_the_mirror() {
    // V0 != 7: skip
    let mut cpu = CPU::new(0);
    cpu.registers[0] = 8;
    write_op(&mut cpu, 0, 0x4007);
    write_op(&mut cpu, 2, 0x6199);
    assert_eq!(cpu.run(10), Ok(Status::Halted));
    assert_eq!(cpu.registers[1], 0);

    // V0 == 7: no skip
    let mut cpu = CPU::new(0);
    cpu.registers[0] = 7;
    write_op(&mut cpu, 0, 0x4007);
    write_op(&mut cpu, 2, 0x6199);
    assert_eq!(cpu.run(10), Ok(Status::Halted));
    assert_eq!(cpu.registers[1], 0x99);
}

#[test]
fn skip_if_registers_equal_compares_values() {
    // V1 == V2 by value, with differing register numbers: must skip
    let mut cpu = CPU::new(0);
    cpu.registers[1] = 33;
    cpu.registers[2] = 33;
    write_op(&mut cpu, 0, 0x5120);
    write_op(&mut cpu, 2, 0x6399);
    assert_eq!(cpu.run(10), Ok(Status::Halted));
    assert_eq!(cpu.registers[3], 0);

    // V1 != V2: no skip
    let mut cpu = CPU::new(0);
    cpu.registers[1] = 33;
    cpu.registers[2] = 34;
    write_op(&mut cpu, 0, 0x5120);
    write_op(&mut cpu, 2, 0x6399);
    assert_eq!(cpu.run(10), Ok(Status::Halted));
    assert_eq!(cpu.registers[3], 0x99);
}

#[test]
fn skip_with_nonzero_selector_is_unknown() {
    let mut cpu = CPU::new(0);
    write_op(&mut cpu, 0, 0x5121);
    assert_eq!(cpu.run(10), Err(VmError::UnimplementedOpcode(0x5121)));
}

#[test]
fn clear_display_signals_the_collaborator() {
    let mut cpu = CPU::new(0);
    write_op(&mut cpu, 0, 0x00E0);
    write_op(&mut cpu, 2, 0x00E0);
    assert_eq!(cpu.run(10), Ok(Status::Halted));
    assert_eq!(cpu.clear_signals, 2);
    assert_eq!(cpu.position_in_memory, 6);
}

#[test]
fn return_on_empty_stack_underflows() {
    let mut cpu = CPU::new(0);
    write_op(&mut cpu, 0, 0x00EE);
    assert_eq!(cpu.run(10), Err(VmError::StackUnderflow));
    // the faulting instruction leaves the state untouched
    assert_eq!(cpu.position_in_memory, 0);
    assert_eq!(cpu.stack_pointer, 0);
}

#[test]
fn call_then_return_balances_the_stack() {
    let mut cpu = CPU::new(0);
    write_op(&mut cpu, 0, 0x2100);
    write_op(&mut cpu, 0x100, 0x00EE);
    assert_eq!(cpu.run(10), Ok(Status::Halted));
    assert_eq!(cpu.stack_pointer, 0);
    // the halt sentinel right after the call: the counter rests one word past it
    assert_eq!(cpu.position_in_memory, 4);
}

#[test]
fn fetch_at_the_memory_edge_is_out_of_bounds() {
    let mut cpu = CPU::new(4095);
    assert_eq!(cpu.run(10), Err(VmError::OutOfBoundsAccess));
    assert_eq!(cpu.position_in_memory, 4095);
}

#[test]
fn run_with_no_budget_reports_still_running() {
    let mut cpu = CPU::new(0);
    write_op(&mut cpu, 0, 0x1000); // jump to self: never halts
    assert_eq!(cpu.run(0), Ok(Status::Running));
    // a budget of zero executes nothing at all
    assert_eq!(cpu.position_in_memory, 0);
    assert_eq!(cpu.run(1000), Ok(Status::Running));
}

#[test]
fn step_reports_running_then_halted() {
    let mut cpu = CPU::new(0);
    write_op(&mut cpu, 0, 0x6001);
    assert_eq!(cpu.step(), Ok(Status::Running));
    assert_eq!(cpu.step(), Ok(Status::Halted));
    assert_eq!(cpu.registers[0], 1);
}

#[test]
fn read_opcode_combines_big_endian() {
    let mut cpu = CPU::new(0);
    cpu.memory[0] = 0xAB;
    cpu.memory[1] = 0xCD;
    assert_eq!(cpu.read_opcode(), 0xABCD);
}
