//! A verified interpreter core for an 8-bit fantasy instruction-set
//! architecture: fixed memory, sixteen general-purpose registers, a bounded
//! call stack, and a fetch-decode-execute cycle driven by a program counter.

pub mod engine;
pub mod fault;
pub mod instr;
pub mod laws;
pub mod state;

pub use engine::Status;
pub use fault::VmError;
pub use instr::Instr;
pub use state::CPU;
pub use state::MachineView;
