//! The fatal conditions that abort a run. The core has no local-recovery
//! error paths: every condition here terminates the run immediately and is
//! surfaced to the caller.

use vstd::prelude::*;

verus! {

/// A condition that aborts a run.
#[derive(Clone, Copy, Debug, PartialEq, Eq, Structural)]
pub enum VmError {
    /// A return was executed with an empty call stack.
    StackUnderflow,
    /// A call was executed with the stack already at capacity.
    StackOverflow,
    /// The decoded opcode matches no implemented instruction; the offending
    /// 16-bit word is carried for diagnosis.
    UnimplementedOpcode(u16),
    /// A memory access fell outside the addressable range.
    OutOfBoundsAccess,
}

} // verus!
