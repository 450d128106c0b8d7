//! General laws of the interpreter core, each proved from the contracts and
//! the spec-level execution model alone.

use vstd::prelude::*;

use crate::engine::RunEnd;
use crate::engine::Step;
use crate::engine::fetch;
use crate::engine::lemma_run_n_unfold;
use crate::engine::lemma_steps_n_unfold;
use crate::engine::run_n;
use crate::engine::steps_n;
use crate::engine::step_spec;
use crate::fault::VmError;
use crate::instr::Instr;
use crate::instr::decode;
use crate::state::MEM_SIZE;
use crate::state::MachineView;

verus! {

/// Determinism: from one fixed initial Machine State, every bounded run that
/// reaches an end reaches the same end — the same final state and the same
/// outcome — whatever its cycle budget. Repeated runs are bit-identical.
pub proof fn lemma_run_deterministic(s: MachineView, n1: nat, n2: nat)
    requires
        run_n(s, n1) is Some,
        run_n(s, n2) is Some,
    ensures
        run_n(s, n1) == run_n(s, n2),
    decreases n1,
{
    reveal(run_n);
    match step_spec(s) {
        Step::Halted(_) => {
        },
        Step::Fault(_) => {
        },
        Step::Next(s2) => {
            lemma_run_deterministic(s2, (n1 - 1) as nat, (n2 - 1) as nat);
        },
    }
}

/// Whether an instruction neither redirects the program counter (jump, call,
/// return) nor conditionally skips: straight-line code.
pub open spec fn is_straight_line(i: Instr) -> bool {
    match i {
        Instr::Cls => true,
        Instr::LdImm(..) => true,
        Instr::AddImm(..) => true,
        Instr::LdReg(..) => true,
        Instr::Or(..) => true,
        Instr::And(..) => true,
        Instr::Xor(..) => true,
        Instr::AddReg(..) => true,
        _ => false,
    }
}

/// Program-counter monotonicity under straight-line code: a cycle that
/// decodes a straight-line instruction keeps running and advances the
/// program counter by exactly 2.
pub proof fn lemma_straight_line_pc(s: MachineView)
    requires
        s.pc + 1 < MEM_SIZE,
        (decode(fetch(s)) matches Some(i) && is_straight_line(i)),
    ensures
        (step_spec(s) matches Step::Next(s2) && s2.pc == s.pc + 2),
{
}

/// Stack balance: a call pushes exactly one frame holding the address of the
/// instruction after the call, and a later return taken with that frame on
/// top brings the stack pointer back to its pre-call value and resumes the
/// program counter immediately after the call.
pub proof fn lemma_call_return_balance(
    s: MachineView,
    s1: MachineView,
    t: MachineView,
    t1: MachineView,
    a: u16,
)
    requires
        s.wf(),
        s.pc + 1 < MEM_SIZE,
        decode(fetch(s)) == Some(Instr::Call(a)),
        step_spec(s) == Step::Next(s1),
        t.pc + 1 < MEM_SIZE,
        decode(fetch(t)) == Some(Instr::Ret),
        t.sp == s1.sp,
        t.stack == s1.stack,
        step_spec(t) == Step::Next(t1),
    ensures
        s1.sp == s.sp + 1,
        s1.stack[s.sp as int] == s.pc + 2,
        s1.pc == a,
        t1.sp == s.sp,
        t1.pc == s.pc + 2,
{
}

/// Skip symmetry: with the same register file and the same operands, a
/// skip-if-equal and a skip-if-not-equal each advance the counter by either
/// 4 or 2, the former by 4 exactly when `Vx == kk`, and exactly one of the
/// pair skips.
pub proof fn lemma_skip_symmetry(s: MachineView, t: MachineView, x: u8, kk: u8)
    requires
        x < 16,
        s.pc + 1 < MEM_SIZE,
        t.pc + 1 < MEM_SIZE,
        s.regs == t.regs,
        decode(fetch(s)) == Some(Instr::SeImm(x, kk)),
        decode(fetch(t)) == Some(Instr::SneImm(x, kk)),
    ensures
        (step_spec(s) matches Step::Next(s2) && step_spec(t) matches Step::Next(t2) && {
            &&& (s2.pc == s.pc + 4 <==> s.regs[x as int] == kk)
            &&& (t2.pc == t.pc + 4 <==> s.regs[x as int] != kk)
            &&& (s2.pc == s.pc + 4 || s2.pc == s.pc + 2)
            &&& (t2.pc == t.pc + 4 || t2.pc == t.pc + 2)
            &&& ((s2.pc == s.pc + 4) <==> !(t2.pc == t.pc + 4))
        }),
{
}

/// Halt idempotence: with the all-zero sentinel at the program counter, the
/// cycle halts with the counter advanced past the sentinel as its only
/// mutation, and every bounded run from that state with any budget at all
/// ends halted there — no further instruction is executed.
pub proof fn lemma_halt_idempotent(s: MachineView, n: nat)
    requires
        s.pc + 1 < MEM_SIZE,
        s.mem[s.pc as int] == 0,
        s.mem[s.pc as int + 1] == 0,
        n >= 1,
    ensures
        (step_spec(s) == Step::Halted(MachineView { pc: s.pc + 2, ..s })),
        (run_n(s, n) == Some(RunEnd::Halted(MachineView { pc: s.pc + 2, ..s }))),
{
    reveal(run_n);
    assert(fetch(s) == 0);
}

/// A run that ends cannot also still be running on a larger budget, and once
/// ended it ends the same on every larger budget: the end does not depend on
/// the budget chosen.
pub proof fn lemma_run_end_stable(s: MachineView, n1: nat, n2: nat)
    requires
        run_n(s, n1) is Some,
        n1 <= n2,
    ensures
        run_n(s, n2) == run_n(s, n1),
    decreases n1,
{
    reveal(run_n);
    match step_spec(s) {
        Step::Halted(_) => {
        },
        Step::Fault(_) => {
        },
        Step::Next(s2) => {
            lemma_run_end_stable(s2, (n1 - 1) as nat, (n2 - 1) as nat);
        },
    }
}

/// Program-counter monotonicity over a whole stretch: when each of the first
/// `n` cycles decodes a straight-line instruction, the machine is still
/// running after them and the counter has increased by exactly 2 per cycle.
pub proof fn lemma_straight_line_pc_run(s: MachineView, n: nat)
    requires
        forall|k: nat| k < n ==> (#[trigger] steps_n(s, k)).pc + 1 < MEM_SIZE,
        forall|k: nat|
            k < n ==> (decode(fetch(#[trigger] steps_n(s, k))) matches Some(i)
                && is_straight_line(i)),
    ensures
        steps_n(s, n).pc == s.pc + 2 * n,
        run_n(s, n) is None,
    decreases n,
{
    lemma_steps_n_unfold(s, 0);
    assert forall|k: nat| k < n implies step_spec(#[trigger] steps_n(s, k)) is Next by {
        lemma_straight_line_pc(steps_n(s, k));
    }
    lemma_run_n_still_running(s, n);
    if n > 0 {
        lemma_straight_line_pc_run(s, (n - 1) as nat);
        lemma_straight_line_pc(steps_n(s, (n - 1) as nat));
        lemma_steps_n_unfold(s, (n - 1) as nat);
    }
}

/// A bounded run is still unfinished after `n` cycles when each of its first
/// `n` cycles keeps the machine running.
pub proof fn lemma_run_n_still_running(s: MachineView, n: nat)
    requires
        forall|k: nat| k < n ==> step_spec(#[trigger] steps_n(s, k)) is Next,
    ensures
        run_n(s, n) is None,
    decreases n,
{
    reveal(run_n);
    if n > 0 {
        lemma_steps_n_unfold(s, 0);
        assert(step_spec(steps_n(s, 0)) is Next);
        match step_spec(s) {
            Step::Next(s2) => {
                assert forall|k: nat| k < n - 1 implies step_spec(
                    #[trigger] steps_n(s2, k),
                ) is Next by {
                    lemma_steps_n_shift(s, k);
                    assert(step_spec(steps_n(s, k + 1)) is Next);
                }
                lemma_run_n_still_running(s2, (n - 1) as nat);
            },
            _ => {
            },
        }
    }
}

/// Iterating one cycle more from the start is iterating from the first
/// cycle's successor: the iterated step commutes with its first cycle.
pub proof fn lemma_steps_n_shift(s: MachineView, k: nat)
    ensures
        (step_spec(s) matches Step::Next(s2) ==> steps_n(s, k + 1) == steps_n(s2, k)),
{
    reveal(steps_n);
}

/// An unknown word at the program counter aborts the cycle with
/// `UnimplementedOpcode` carrying that very word, and leaves the state as it
/// is: never a silent no-op.
pub proof fn lemma_unknown_opcode_faults(s: MachineView)
    requires
        s.pc + 1 < MEM_SIZE,
        decode(fetch(s)) is None,
    ensures
        step_spec(s) == Step::Fault(VmError::UnimplementedOpcode(fetch(s))),
{
}

} // verus!
