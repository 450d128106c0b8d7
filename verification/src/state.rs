//! The Machine State: memory, registers, call stack and program counter,
//! together with one state-transition method per implemented instruction.

use vstd::prelude::*;

use crate::fault::VmError;

verus! {

/// Bytes of addressable memory.
pub const MEM_SIZE: usize = 4096;

/// Number of general-purpose registers, `V0` through `VF`.
pub const NUM_REGS: usize = 16;

/// Number of return-address slots in the call stack.
pub const STACK_SLOTS: usize = 16;

/// Index of the flag register `VF`, which reports the carry of a
/// register-to-register addition.
pub const FLAG_REG: usize = 15;

/// The mathematical model of a Machine State.
#[verifier::ext_equal]
pub struct MachineView {
    /// The memory image, one entry per byte.
    pub mem: Seq<u8>,
    /// The sixteen general-purpose registers `V0` through `VF`.
    pub regs: Seq<u8>,
    /// The return-address slots; only those below `sp` are live.
    pub stack: Seq<u16>,
    /// The program counter: the memory index of the next instruction.
    pub pc: nat,
    /// The stack pointer: the number of outstanding call frames.
    pub sp: nat,
    /// How many "clear display" signals have been emitted to the display
    /// collaborator.
    pub clears: nat,
}

impl MachineView {
    /// The state's invariant: the three storage areas have their fixed sizes
    /// and the stack pointer never exceeds the stack's capacity.
    pub open spec fn wf(self) -> bool {
        &&& self.mem.len() == MEM_SIZE
        &&& self.regs.len() == NUM_REGS
        &&& self.stack.len() == STACK_SLOTS
        &&& self.sp <= STACK_SLOTS
    }
}

/// 8-bit addition that wraps on overflow: `(a + b) mod 256`.
pub open spec fn wrap_add(a: u8, b: u8) -> u8 {
    (((a + b) % 256) as u8)
}

/// The carry of an 8-bit addition: 1 when `a + b` overflows 255, else 0.
pub open spec fn carry_flag(a: u8, b: u8) -> u8 {
    if a + b > 255 {
        1
    } else {
        0
    }
}

/// The register file after a register-to-register addition `Vx := Vx + Vy`:
/// `Vx` takes the wrapped sum, then `VF` takes the carry. When `x` is the
/// flag register itself, the carry write wins.
pub open spec fn add_reg_result(regs: Seq<u8>, x: u8, y: u8) -> Seq<u8> {
    regs.update(x as int, wrap_add(regs[x as int], regs[y as int])).update(
        FLAG_REG as int,
        carry_flag(regs[x as int], regs[y as int]),
    )
}

/// The count of emitted "clear display" signals after one more, saturating at
/// the counter's machine limit.
pub open spec fn next_clear_count(c: nat) -> nat {
    if c < u64::MAX {
        c + 1
    } else {
        c
    }
}

/// A Machine State: the single mutable aggregate that a run owns and mutates
/// in place. The caller populates `memory`, the entry offset and any
/// pre-seeded register values before a run, and inspects the fields after it.
pub struct CPU {
    /// The sixteen general-purpose registers `V0` through `VF`.
    pub registers: Vec<u8>,
    /// The program counter: the memory index of the next instruction.
    pub position_in_memory: usize,
    /// The memory image.
    pub memory: Vec<u8>,
    /// The return-address slots.
    pub stack: Vec<u16>,
    /// The number of outstanding call frames.
    pub stack_pointer: usize,
    /// How many "clear display" signals the core has emitted.
    pub clear_signals: u64,
}

impl View for CPU {
    type V = MachineView;

    open spec fn view(&self) -> MachineView {
        MachineView {
            mem: self.memory@,
            regs: self.registers@,
            stack: self.stack@,
            pc: self.position_in_memory as nat,
            sp: self.stack_pointer as nat,
            clears: self.clear_signals as nat,
        }
    }
}

impl CPU {
    /// A fresh Machine State: all-zero memory, registers and stack, an empty
    /// call stack, no emitted signals, and the program counter at the
    /// caller-supplied entry offset.
    pub fn new(entry: usize) -> (r: CPU)
        requires
            entry < MEM_SIZE,
        ensures
            r@.wf(),
            r@.pc == entry,
            r@.sp == 0,
            r@.clears == 0,
            forall|i: int| 0 <= i < MEM_SIZE ==> r@.mem[i] == 0,
            forall|i: int| 0 <= i < NUM_REGS ==> r@.regs[i] == 0,
            forall|i: int| 0 <= i < STACK_SLOTS ==> r@.stack[i] == 0,
    {
        let mut memory: Vec<u8> = Vec::new();
        while memory.len() < MEM_SIZE
            invariant
                memory@.len() <= MEM_SIZE,
                forall|i: int| 0 <= i < memory@.len() ==> memory@[i] == 0,
            decreases MEM_SIZE - memory@.len(),
        {
            memory.push(0);
        }
        let mut registers: Vec<u8> = Vec::new();
        while registers.len() < NUM_REGS
            invariant
                registers@.len() <= NUM_REGS,
                forall|i: int| 0 <= i < registers@.len() ==> registers@[i] == 0,
            decreases NUM_REGS - registers@.len(),
        {
            registers.push(0);
        }
        let mut stack: Vec<u16> = Vec::new();
        while stack.len() < STACK_SLOTS
            invariant
                stack@.len() <= STACK_SLOTS,
                forall|i: int| 0 <= i < stack@.len() ==> stack@[i] == 0,
            decreases STACK_SLOTS - stack@.len(),
        {
            stack.push(0);
        }
        CPU {
            registers,
            position_in_memory: entry,
            memory,
            stack,
            stack_pointer: 0,
            clear_signals: 0,
        }
    }

    /// `00E0`: emit one "clear display" signal to the display collaborator;
    /// memory, registers, stack and program counter are untouched.
    pub fn cls(&mut self)
        requires
            old(self)@.wf(),
        ensures
            final(self)@.wf(),
            (final(self)@ == MachineView {
                clears: next_clear_count(old(self)@.clears),
                ..old(self)@
            }),
    {
        if self.clear_signals < u64::MAX {
            self.clear_signals = self.clear_signals + 1;
        }
    }

    /// `00EE`: pop a return address off the stack into the program counter.
    /// With an empty stack the run aborts with `StackUnderflow` and the state
    /// is left untouched.
    pub fn ret(&mut self) -> (r: Result<(), VmError>)
        requires
            old(self)@.wf(),
        ensures
            final(self)@.wf(),
            (match r {
                Ok(()) => old(self)@.sp > 0 && final(self)@ == MachineView {
                    pc: old(self)@.stack[old(self)@.sp - 1] as nat,
                    sp: (old(self)@.sp - 1) as nat,
                    ..old(self)@
                },
                Err(e) => e == VmError::StackUnderflow && old(self)@.sp == 0
                    && *final(self) == *old(self),
            }),
    {
        if self.stack_pointer == 0 {
            return Err(VmError::StackUnderflow);
        }
        self.stack_pointer = self.stack_pointer - 1;
        let call_addr: u16 = self.stack[self.stack_pointer];
        self.position_in_memory = call_addr as usize;
        Ok(())
    }

    /// `1nnn`: set the program counter to `addr` unconditionally.
    pub fn jmp(&mut self, addr: u16)
        requires
            old(self)@.wf(),
        ensures
            final(self)@.wf(),
            (final(self)@ == MachineView { pc: addr as nat, ..old(self)@ }),
    {
        self.position_in_memory = addr as usize;
    }

    /// `2nnn`: push the current program counter (already advanced past the
    /// call instruction) onto the stack, then jump to `addr`. With the stack
    /// at capacity the run aborts with `StackOverflow` and the state is left
    /// untouched.
    pub fn call(&mut self, addr: u16) -> (r: Result<(), VmError>)
        requires
            old(self)@.wf(),
            old(self)@.pc <= u16::MAX,
        ensures
            final(self)@.wf(),
            (match r {
                Ok(()) => old(self)@.sp < STACK_SLOTS && final(self)@ == MachineView {
                    stack: old(self)@.stack.update(
                        old(self)@.sp as int,
                        old(self)@.pc as u16,
                    ),
                    sp: old(self)@.sp + 1,
                    pc: addr as nat,
                    ..old(self)@
                },
                Err(e) => e == VmError::StackOverflow && old(self)@.sp >= STACK_SLOTS
                    && *final(self) == *old(self),
            }),
    {
        if self.stack_pointer >= STACK_SLOTS {
            return Err(VmError::StackOverflow);
        }
        self.stack[self.stack_pointer] = self.position_in_memory as u16;
        self.stack_pointer = self.stack_pointer + 1;
        self.position_in_memory = addr as usize;
        Ok(())
    }

    /// `3xkk` (and, with `kk` sourced from another register, `5xy0`): skip
    /// the next instruction, by advancing the program counter one further
    /// step, exactly when register `Vx` equals `kk`.
    pub fn se(&mut self, x: u8, kk: u8)
        requires
            old(self)@.wf(),
            x < 16,
            old(self)@.pc + 2 <= usize::MAX,
        ensures
            final(self)@.wf(),
            (final(self)@ == if old(self)@.regs[x as int] == kk {
                MachineView { pc: (old(self)@.pc + 2) as nat, ..old(self)@ }
            } else {
                old(self)@
            }),
    {
        if self.registers[x as usize] == kk {
            self.position_in_memory = self.position_in_memory + 2;
        }
    }

    /// `4xkk`: skip the next instruction exactly when register `Vx` differs
    /// from `kk`.
    pub fn sne(&mut self, x: u8, kk: u8)
        requires
            old(self)@.wf(),
            x < 16,
            old(self)@.pc + 2 <= usize::MAX,
        ensures
            final(self)@.wf(),
            (final(self)@ == if old(self)@.regs[x as int] != kk {
                MachineView { pc: (old(self)@.pc + 2) as nat, ..old(self)@ }
            } else {
                old(self)@
            }),
    {
        if self.registers[x as usize] != kk {
            self.position_in_memory = self.position_in_memory + 2;
        }
    }

    /// `6xkk` (and, with `kk` sourced from another register, `8xy0`): set
    /// register `Vx` to `kk`.
    pub fn ld(&mut self, x: u8, kk: u8)
        requires
            old(self)@.wf(),
            x < 16,
        ensures
            final(self)@.wf(),
            (final(self)@ == MachineView {
                regs: old(self)@.regs.update(x as int, kk),
                ..old(self)@
            }),
    {
        self.registers[x as usize] = kk;
    }

    /// `7xkk`: set register `Vx` to `Vx + kk`, wrapping on 8-bit overflow.
    /// No carry is reported for this opcode family.
    pub fn add(&mut self, x: u8, kk: u8)
        requires
            old(self)@.wf(),
            x < 16,
        ensures
            final(self)@.wf(),
            (final(self)@ == MachineView {
                regs: old(self)@.regs.update(
                    x as int,
                    wrap_add(old(self)@.regs[x as int], kk),
                ),
                ..old(self)@
            }),
    {
        let sum: u16 = self.registers[x as usize] as u16 + kk as u16;
        self.registers[x as usize] = (sum % 256) as u8;
    }

    /// `8xy1`: set register `Vx` to `Vx OR Vy`.
    pub fn or_xy(&mut self, x: u8, y: u8)
        requires
            old(self)@.wf(),
            x < 16,
            y < 16,
        ensures
            final(self)@.wf(),
            (final(self)@ == MachineView {
                regs: old(self)@.regs.update(
                    x as int,
                    old(self)@.regs[x as int] | old(self)@.regs[y as int],
                ),
                ..old(self)@
            }),
    {
        let x_: u8 = self.registers[x as usize];
        let y_: u8 = self.registers[y as usize];
        self.registers[x as usize] = x_ | y_;
    }

    /// `8xy2`: set register `Vx` to `Vx AND Vy`.
    pub fn and_xy(&mut self, x: u8, y: u8)
        requires
            old(self)@.wf(),
            x < 16,
            y < 16,
        ensures
            final(self)@.wf(),
            (final(self)@ == MachineView {
                regs: old(self)@.regs.update(
                    x as int,
                    old(self)@.regs[x as int] & old(self)@.regs[y as int],
                ),
                ..old(self)@
            }),
    {
        let x_: u8 = self.registers[x as usize];
        let y_: u8 = self.registers[y as usize];
        self.registers[x as usize] = x_ & y_;
    }

    /// `8xy3`: set register `Vx` to `Vx XOR Vy`.
    pub fn xor_xy(&mut self, x: u8, y: u8)
        requires
            old(self)@.wf(),
            x < 16,
            y < 16,
        ensures
            final(self)@.wf(),
            (final(self)@ == MachineView {
                regs: old(self)@.regs.update(
                    x as int,
                    old(self)@.regs[x as int] ^ old(self)@.regs[y as int],
                ),
                ..old(self)@
            }),
    {
        let x_: u8 = self.registers[x as usize];
        let y_: u8 = self.registers[y as usize];
        self.registers[x as usize] = x_ ^ y_;
    }

    /// `8xy4`: set register `Vx` to `Vx + Vy`, wrapping on 8-bit overflow,
    /// and set register `VF` to 1 exactly when the addition overflowed,
    /// else to 0.
    pub fn add_xy(&mut self, x: u8, y: u8)
        requires
            old(self)@.wf(),
            x < 16,
            y < 16,
        ensures
            final(self)@.wf(),
            (final(self)@ == MachineView {
                regs: add_reg_result(old(self)@.regs, x, y),
                ..old(self)@
            }),
    {
        let arg1: u8 = self.registers[x as usize];
        let arg2: u8 = self.registers[y as usize];
        let sum: u16 = arg1 as u16 + arg2 as u16;
        self.registers[x as usize] = (sum % 256) as u8;
        self.registers[FLAG_REG] = if sum > 255 {
            1
        } else {
            0
        };
    }
}

} // verus!
