//! Decoding of 16-bit instruction words into the implemented instruction set.
//!
//! An opcode is split into four 4-bit fields: `c` (bits 12-15, the operation
//! class), `x` (bits 8-11, the first register operand), `y` (bits 4-7, the
//! second register operand) and `d` (bits 0-3, the sub-operation selector),
//! plus two convenience views: `kk` (bits 0-7, an 8-bit immediate) and
//! `addr` (bits 0-11, a 12-bit address).

use vstd::prelude::*;

verus! {

/// A decoded instruction. Any word that decodes to none of these variants is
/// an unimplemented opcode and must abort the run; it is never a silent no-op.
#[derive(Clone, Copy, Debug, PartialEq, Eq, Structural)]
pub enum Instr {
    /// `0000`: the sentinel meaning "no more program".
    Halt,
    /// `00E0`: signal "clear display" to the display collaborator.
    Cls,
    /// `00EE`: return from the current subroutine.
    Ret,
    /// `1nnn`: jump to `nnn` unconditionally.
    Jmp(u16),
    /// `2nnn`: call the subroutine at `nnn`.
    Call(u16),
    /// `3xkk`: skip the next instruction if register `Vx` equals `kk`.
    SeImm(u8, u8),
    /// `4xkk`: skip the next instruction if register `Vx` differs from `kk`.
    SneImm(u8, u8),
    /// `5xy0`: skip the next instruction if register `Vx` equals register `Vy`.
    SeReg(u8, u8),
    /// `6xkk`: load the immediate `kk` into register `Vx`.
    LdImm(u8, u8),
    /// `7xkk`: add the immediate `kk` to register `Vx`, wrapping; no carry.
    AddImm(u8, u8),
    /// `8xy0`: copy register `Vy` into register `Vx`.
    LdReg(u8, u8),
    /// `8xy1`: bitwise OR of `Vx` and `Vy` into `Vx`.
    Or(u8, u8),
    /// `8xy2`: bitwise AND of `Vx` and `Vy` into `Vx`.
    And(u8, u8),
    /// `8xy3`: bitwise XOR of `Vx` and `Vy` into `Vx`.
    Xor(u8, u8),
    /// `8xy4`: add `Vy` to `Vx`, wrapping, and report the carry in `VF`.
    AddReg(u8, u8),
}

/// Bits 12-15 of an opcode: the operation class.
pub open spec fn op_class(op: u16) -> u16 {
    op / 0x1000
}

/// Bits 8-11 of an opcode: the first register operand.
pub open spec fn op_x(op: u16) -> u8 {
    (((op / 0x100) % 0x10) as u8)
}

/// Bits 4-7 of an opcode: the second register operand.
pub open spec fn op_y(op: u16) -> u8 {
    (((op / 0x10) % 0x10) as u8)
}

/// Bits 0-3 of an opcode: the sub-operation selector.
pub open spec fn op_d(op: u16) -> u16 {
    op % 0x10
}

/// Bits 0-7 of an opcode: an 8-bit immediate.
pub open spec fn op_kk(op: u16) -> u8 {
    ((op % 0x100) as u8)
}

/// Bits 0-11 of an opcode: a 12-bit address.
pub open spec fn op_addr(op: u16) -> u16 {
    op % 0x1000
}

/// What a 16-bit word decodes to: the implemented instruction, or `None` for
/// a word outside the implemented subset.
pub open spec fn decode(op: u16) -> Option<Instr> {
    if op == 0x0000 {
        Some(Instr::Halt)
    } else if op == 0x00E0 {
        Some(Instr::Cls)
    } else if op == 0x00EE {
        Some(Instr::Ret)
    } else if op_class(op) == 0x1 {
        Some(Instr::Jmp(op_addr(op)))
    } else if op_class(op) == 0x2 {
        Some(Instr::Call(op_addr(op)))
    } else if op_class(op) == 0x3 {
        Some(Instr::SeImm(op_x(op), op_kk(op)))
    } else if op_class(op) == 0x4 {
        Some(Instr::SneImm(op_x(op), op_kk(op)))
    } else if op_class(op) == 0x5 && op_d(op) == 0x0 {
        Some(Instr::SeReg(op_x(op), op_y(op)))
    } else if op_class(op) == 0x6 {
        Some(Instr::LdImm(op_x(op), op_kk(op)))
    } else if op_class(op) == 0x7 {
        Some(Instr::AddImm(op_x(op), op_kk(op)))
    } else if op_class(op) == 0x8 && op_d(op) == 0x0 {
        Some(Instr::LdReg(op_x(op), op_y(op)))
    } else if op_class(op) == 0x8 && op_d(op) == 0x1 {
        Some(Instr::Or(op_x(op), op_y(op)))
    } else if op_class(op) == 0x8 && op_d(op) == 0x2 {
        Some(Instr::And(op_x(op), op_y(op)))
    } else if op_class(op) == 0x8 && op_d(op) == 0x3 {
        Some(Instr::Xor(op_x(op), op_y(op)))
    } else if op_class(op) == 0x8 && op_d(op) == 0x4 {
        Some(Instr::AddReg(op_x(op), op_y(op)))
    } else {
        None
    }
}

/// Both register operands of a decoded instruction name one of the sixteen
/// registers: they are 4-bit fields by construction.
pub proof fn lemma_decode_operands_in_range(op: u16)
    ensures
        op_x(op) < 16,
        op_y(op) < 16,
{
}

/// Decodes a 16-bit instruction word.
pub fn decode_op(op: u16) -> (r: Option<Instr>)
    ensures
        r == decode(op),
{
    let c: u16 = op / 0x1000;
    let x: u8 = ((op / 0x100) % 0x10) as u8;
    let y: u8 = ((op / 0x10) % 0x10) as u8;
    let d: u16 = op % 0x10;
    let kk: u8 = (op % 0x100) as u8;
    let addr: u16 = op % 0x1000;
    if op == 0x0000 {
        Some(Instr::Halt)
    } else if op == 0x00E0 {
        Some(Instr::Cls)
    } else if op == 0x00EE {
        Some(Instr::Ret)
    } else if c == 0x1 {
        Some(Instr::Jmp(addr))
    } else if c == 0x2 {
        Some(Instr::Call(addr))
    } else if c == 0x3 {
        Some(Instr::SeImm(x, kk))
    } else if c == 0x4 {
        Some(Instr::SneImm(x, kk))
    } else if c == 0x5 && d == 0x0 {
        Some(Instr::SeReg(x, y))
    } else if c == 0x6 {
        Some(Instr::LdImm(x, kk))
    } else if c == 0x7 {
        Some(Instr::AddImm(x, kk))
    } else if c == 0x8 && d == 0x0 {
        Some(Instr::LdReg(x, y))
    } else if c == 0x8 && d == 0x1 {
        Some(Instr::Or(x, y))
    } else if c == 0x8 && d == 0x2 {
        Some(Instr::And(x, y))
    } else if c == 0x8 && d == 0x3 {
        Some(Instr::Xor(x, y))
    } else if c == 0x8 && d == 0x4 {
        Some(Instr::AddReg(x, y))
    } else {
        None
    }
}

} // verus!
