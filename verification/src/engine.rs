//! The fetch-decode-execute engine: one `step` per instruction and a `run`
//! loop that repeats it until the machine halts or a fatal condition aborts
//! the run.

use vstd::prelude::*;

use crate::fault::VmError;
use crate::instr::Instr;
use crate::instr::decode;
use crate::instr::decode_op;
use crate::state::CPU;
use crate::state::MEM_SIZE;
use crate::state::MachineView;
use crate::state::STACK_SLOTS;
use crate::state::add_reg_result;
use crate::state::next_clear_count;
use crate::state::wrap_add;

verus! {

/// What one machine cycle does to a state: move to the next state, halt, or
/// abort with a fatal condition. The counter is advanced past the fetched
/// word before dispatch, so a halting cycle still advances it; on `Fault`
/// the Machine State is left exactly as it was.
#[verifier::ext_equal]
pub enum Step {
    /// The cycle executed one instruction and the machine keeps running.
    Next(MachineView),
    /// The cycle decoded the all-zero sentinel: no more program. The carried
    /// state is the old one with only the counter advanced past the sentinel.
    Halted(MachineView),
    /// The cycle hit a fatal condition and the run aborts.
    Fault(VmError),
}

/// Whether a `step` left the machine still running or halted.
#[derive(Clone, Copy, Debug, PartialEq, Eq, Structural)]
pub enum Status {
    /// The instruction was executed; the machine can take another step.
    Running,
    /// The halt sentinel was decoded; the machine is done.
    Halted,
}

/// The 16-bit word at the program counter, combined big-endian from two
/// consecutive memory bytes.
pub open spec fn fetch(s: MachineView) -> u16 {
    ((s.mem[s.pc as int] * 256 + s.mem[s.pc as int + 1]) as u16)
}

/// The effect of one decoded instruction on a state whose program counter
/// still points at the instruction itself. Every instruction but a jump,
/// call, return or taken skip leaves the counter advanced by exactly one
/// 2-byte word.
pub open spec fn apply_instr(s: MachineView, i: Instr) -> Step {
    match i {
        Instr::Halt => Step::Halted(MachineView { pc: s.pc + 2, ..s }),
        Instr::Cls => Step::Next(
            MachineView { pc: s.pc + 2, clears: next_clear_count(s.clears), ..s },
        ),
        Instr::Ret => if s.sp == 0 {
            Step::Fault(VmError::StackUnderflow)
        } else {
            Step::Next(
                MachineView { pc: s.stack[s.sp - 1] as nat, sp: (s.sp - 1) as nat, ..s },
            )
        },
        Instr::Jmp(a) => Step::Next(MachineView { pc: a as nat, ..s }),
        Instr::Call(a) => if s.sp >= STACK_SLOTS {
            Step::Fault(VmError::StackOverflow)
        } else {
            Step::Next(
                MachineView {
                    stack: s.stack.update(s.sp as int, ((s.pc + 2) as u16)),
                    sp: s.sp + 1,
                    pc: a as nat,
                    ..s
                },
            )
        },
        Instr::SeImm(x, kk) => Step::Next(
            MachineView {
                pc: if s.regs[x as int] == kk {
                    s.pc + 4
                } else {
                    s.pc + 2
                },
                ..s
            },
        ),
        Instr::SneImm(x, kk) => Step::Next(
            MachineView {
                pc: if s.regs[x as int] != kk {
                    s.pc + 4
                } else {
                    s.pc + 2
                },
                ..s
            },
        ),
        Instr::SeReg(x, y) => Step::Next(
            MachineView {
                pc: if s.regs[x as int] == s.regs[y as int] {
                    s.pc + 4
                } else {
                    s.pc + 2
                },
                ..s
            },
        ),
        Instr::LdImm(x, kk) => Step::Next(
            MachineView { pc: s.pc + 2, regs: s.regs.update(x as int, kk), ..s },
        ),
        Instr::AddImm(x, kk) => Step::Next(
            MachineView {
                pc: s.pc + 2,
                regs: s.regs.update(x as int, wrap_add(s.regs[x as int], kk)),
                ..s
            },
        ),
        Instr::LdReg(x, y) => Step::Next(
            MachineView {
                pc: s.pc + 2,
                regs: s.regs.update(x as int, s.regs[y as int]),
                ..s
            },
        ),
        Instr::Or(x, y) => Step::Next(
            MachineView {
                pc: s.pc + 2,
                regs: s.regs.update(x as int, s.regs[x as int] | s.regs[y as int]),
                ..s
            },
        ),
        Instr::And(x, y) => Step::Next(
            MachineView {
                pc: s.pc + 2,
                regs: s.regs.update(x as int, s.regs[x as int] & s.regs[y as int]),
                ..s
            },
        ),
        Instr::Xor(x, y) => Step::Next(
            MachineView {
                pc: s.pc + 2,
                regs: s.regs.update(x as int, s.regs[x as int] ^ s.regs[y as int]),
                ..s
            },
        ),
        Instr::AddReg(x, y) => Step::Next(
            MachineView { pc: s.pc + 2, regs: add_reg_result(s.regs, x, y), ..s },
        ),
    }
}

/// One machine cycle as a mathematical function of the state: bounds-check
/// the fetch, fetch, decode, and apply the decoded instruction. A fetch that
/// would leave memory, an unknown word and the fatal conditions of call and
/// return all leave the state untouched.
pub open spec fn step_spec(s: MachineView) -> Step {
    if s.pc + 1 >= MEM_SIZE {
        Step::Fault(VmError::OutOfBoundsAccess)
    } else {
        match decode(fetch(s)) {
            Option::None => Step::Fault(VmError::UnimplementedOpcode(fetch(s))),
            Option::Some(i) => apply_instr(s, i),
        }
    }
}

/// Where a run ends: halted, or aborted by a fatal condition, each with the
/// Machine State at that moment.
#[verifier::ext_equal]
pub enum RunEnd {
    /// The run decoded the halt sentinel in this state.
    Halted(MachineView),
    /// The run aborted with this fatal condition in this state.
    Fault(MachineView, VmError),
}

/// A run of at most `n` machine cycles from `s`: `Some` end when the machine
/// halts or faults within `n` cycles, `None` when it is still running after
/// them. Since `step_spec` is a function of the state alone, every run from
/// one state is the same run. Opaque so that callers reason through
/// `lemma_run_n_unfold` instead of the raw definition.
#[verifier::opaque]
pub open spec fn run_n(s: MachineView, n: nat) -> Option<RunEnd>
    decreases n,
{
    if n == 0 {
        None
    } else {
        match step_spec(s) {
            Step::Halted(s2) => Some(RunEnd::Halted(s2)),
            Step::Fault(e) => Some(RunEnd::Fault(s, e)),
            Step::Next(s2) => run_n(s2, (n - 1) as nat),
        }
    }
}

/// The state after `n` machine cycles from `s`, as long as each cycle keeps
/// running; a cycle that halts or faults leaves the state of the cycles
/// before it. Opaque so that callers reason through `lemma_steps_n_unfold`
/// instead of the raw definition.
#[verifier::opaque]
pub open spec fn steps_n(s: MachineView, n: nat) -> MachineView
    decreases n,
{
    if n == 0 {
        s
    } else {
        match step_spec(s) {
            Step::Next(s2) => steps_n(s2, (n - 1) as nat),
            _ => s,
        }
    }
}

/// How a bounded run relates to its first cycle: with no budget it is still
/// running; otherwise it ends where the cycle halts or faults, and continues
/// as the bounded run, one cycle shorter, from the cycle's successor state.
pub proof fn lemma_run_n_unfold(s: MachineView, n: nat)
    ensures
        run_n(s, 0) == Option::<RunEnd>::None,
        n >= 1 ==> (step_spec(s) matches Step::Halted(s2) ==> run_n(s, n) == Some(
            RunEnd::Halted(s2),
        )),
        n >= 1 ==> (step_spec(s) matches Step::Fault(e) ==> run_n(s, n) == Some(
            RunEnd::Fault(s, e),
        )),
        n >= 1 ==> (step_spec(s) matches Step::Next(s2) ==> run_n(s, n) == run_n(
            s2,
            (n - 1) as nat,
        )),
{
    reveal(run_n);
}

/// How the iterated step grows at the back: no cycles take the state
/// nowhere, and when the cycle after `k` running cycles keeps running, its
/// successor is the state after `k + 1` of them.
pub proof fn lemma_steps_n_unfold(s: MachineView, k: nat)
    ensures
        steps_n(s, 0) == s,
        (step_spec(steps_n(s, k)) matches Step::Next(s2) ==> steps_n(s, k + 1) == s2),
    decreases k,
{
    reveal_with_fuel(steps_n, 2);
    if k == 0 {
    } else {
        match step_spec(s) {
            Step::Next(s2) => {
                lemma_steps_n_unfold(s2, (k - 1) as nat);
            },
            _ => {
            },
        }
    }
}

impl CPU {
    /// The 16-bit instruction word at the program counter: the byte at the
    /// counter as the high half, the byte after it as the low half.
    pub fn read_opcode(&self) -> (r: u16)
        requires
            self@.wf(),
            self@.pc + 1 < MEM_SIZE,
        ensures
            r == fetch(self@),
    {
        let op_byte1: u8 = self.memory[self.position_in_memory];
        let op_byte2: u8 = self.memory[self.position_in_memory + 1];
        op_byte1 as u16 * 256 + op_byte2 as u16
    }

    /// One machine cycle: fetch, advance, decode, dispatch, execute. The
    /// result and the new state are exactly what `step_spec` says of the old
    /// state; a halting cycle advances the counter past the sentinel and
    /// changes nothing else, and every error leaves the state untouched.
    pub fn step(&mut self) -> (r: Result<Status, VmError>)
        requires
            old(self)@.wf(),
        ensures
            final(self)@.wf(),
            (match r {
                Ok(Status::Running) => step_spec(old(self)@) == Step::Next(final(self)@),
                Ok(Status::Halted) => step_spec(old(self)@) == Step::Halted(final(self)@),
                Err(e) => step_spec(old(self)@) == Step::Fault(e) && *final(self) == *old(self),
            }),
    {
        if self.position_in_memory >= MEM_SIZE - 1 {
            return Err(VmError::OutOfBoundsAccess);
        }
        let opcode: u16 = self.read_opcode();
        let decoded: Option<Instr> = decode_op(opcode);
        let i: Instr = match decoded {
            None => {
                return Err(VmError::UnimplementedOpcode(opcode));
            },
            Some(i) => i,
        };
        match i {
            Instr::Halt => {
                self.position_in_memory = self.position_in_memory + 2;
                Ok(Status::Halted)
            },
            Instr::Cls => {
                self.position_in_memory = self.position_in_memory + 2;
                self.cls();
                Ok(Status::Running)
            },
            Instr::Ret => {
                match self.ret() {
                    Ok(()) => Ok(Status::Running),
                    Err(e) => Err(e),
                }
            },
            Instr::Jmp(a) => {
                self.jmp(a);
                Ok(Status::Running)
            },
            Instr::Call(a) => {
                if self.stack_pointer >= STACK_SLOTS {
                    return Err(VmError::StackOverflow);
                }
                self.position_in_memory = self.position_in_memory + 2;
                match self.call(a) {
                    Ok(()) => Ok(Status::Running),
                    Err(e) => Err(e),
                }
            },
            Instr::SeImm(x, kk) => {
                self.position_in_memory = self.position_in_memory + 2;
                self.se(x, kk);
                Ok(Status::Running)
            },
            Instr::SneImm(x, kk) => {
                self.position_in_memory = self.position_in_memory + 2;
                self.sne(x, kk);
                Ok(Status::Running)
            },
            Instr::SeReg(x, y) => {
                self.position_in_memory = self.position_in_memory + 2;
                let vy: u8 = self.registers[y as usize];
                self.se(x, vy);
                Ok(Status::Running)
            },
            Instr::LdImm(x, kk) => {
                self.position_in_memory = self.position_in_memory + 2;
                self.ld(x, kk);
                Ok(Status::Running)
            },
            Instr::AddImm(x, kk) => {
                self.position_in_memory = self.position_in_memory + 2;
                self.add(x, kk);
                Ok(Status::Running)
            },
            Instr::LdReg(x, y) => {
                self.position_in_memory = self.position_in_memory + 2;
                let vy: u8 = self.registers[y as usize];
                self.ld(x, vy);
                Ok(Status::Running)
            },
            Instr::Or(x, y) => {
                self.position_in_memory = self.position_in_memory + 2;
                self.or_xy(x, y);
                Ok(Status::Running)
            },
            Instr::And(x, y) => {
                self.position_in_memory = self.position_in_memory + 2;
                self.and_xy(x, y);
                Ok(Status::Running)
            },
            Instr::Xor(x, y) => {
                self.position_in_memory = self.position_in_memory + 2;
                self.xor_xy(x, y);
                Ok(Status::Running)
            },
            Instr::AddReg(x, y) => {
                self.position_in_memory = self.position_in_memory + 2;
                self.add_xy(x, y);
                Ok(Status::Running)
            },
        }
    }

    /// Execute instructions until the machine halts, a fatal condition
    /// aborts the run, or `max_cycles` cycles have been executed. The result
    /// and the final state are exactly what the bounded run says of the
    /// initial state and the budget: `Ok(Halted)` when `run_n` ends at the
    /// halt sentinel in the final state, `Err` when it ends aborted there
    /// with the returned condition, and `Ok(Running)` when the machine is
    /// still running after the whole budget, the final state then being the
    /// one after exactly `max_cycles` cycles. Since `run_n` and `steps_n`
    /// are functions of the initial state, repeated runs from one state
    /// produce bit-identical outcomes, whether or not they complete.
    #[verifier::rlimit(50)]
    pub fn run(&mut self, max_cycles: u64) -> (r: Result<Status, VmError>)
        requires
            old(self)@.wf(),
        ensures
            final(self)@.wf(),
            (match r {
                Ok(Status::Halted) => run_n(old(self)@, max_cycles as nat) == Some(
                    RunEnd::Halted(final(self)@),
                ),
                Ok(Status::Running) => run_n(old(self)@, max_cycles as nat) is None
                    && final(self)@ == steps_n(old(self)@, max_cycles as nat),
                Err(e) => run_n(old(self)@, max_cycles as nat) == Some(
                    RunEnd::Fault(final(self)@, e),
                ),
            }),
    {
        let ghost s0 = self@;
        let mut cycles_left: u64 = max_cycles;
        proof {
            lemma_steps_n_unfold(s0, 0);
        }
        loop
            invariant
                self@.wf(),
                s0 == old(self)@,
                cycles_left <= max_cycles,
                self@ == steps_n(s0, (max_cycles - cycles_left) as nat),
                run_n(s0, max_cycles as nat) == run_n(self@, cycles_left as nat),
            decreases cycles_left,
        {
            if cycles_left == 0 {
                proof {
                    lemma_run_n_unfold(self@, 0);
                }
                return Ok(Status::Running);
            }
            let ghost prev = self@;
            let res: Result<Status, VmError> = self.step();
            match res {
                Ok(Status::Running) => {
                    proof {
                        lemma_run_n_unfold(prev, cycles_left as nat);
                        lemma_steps_n_unfold(s0, (max_cycles - cycles_left) as nat);
                    }
                    cycles_left = cycles_left - 1;
                },
                Ok(Status::Halted) => {
                    proof {
                        lemma_run_n_unfold(prev, cycles_left as nat);
                    }
                    return Ok(Status::Halted);
                },
                Err(e) => {
                    proof {
                        lemma_run_n_unfold(self@, cycles_left as nat);
                    }
                    return Err(e);
                },
            }
        }
    }
}

} // verus!
