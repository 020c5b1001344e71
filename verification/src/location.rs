//! The operand model: where a value lives while code is being generated,
//! plus the small enumerations that ABI-sensitive operations consume.

use vstd::prelude::*;
use crate::regs::{GPR, XMM};

verus! {

/// Operand width of an emitted instruction.
#[derive(Clone, Copy, Debug, PartialEq, Eq, Structural)]
pub enum Size {
    S8,
    S16,
    S32,
    S64,
}

/// Where an operand lives: a general-purpose register, a vector register,
/// memory at a signed offset from a base register, or an immediate.
#[derive(Clone, Copy, Debug, PartialEq, Eq, Structural)]
pub enum Location {
    GPR(GPR),
    XMM(XMM),
    Memory(GPR, i32),
    Imm32(u32),
    Imm64(u64),
}

/// The value kind of a WebAssembly local or operand; only the register
/// class it maps to matters for allocation.
#[derive(Clone, Copy, Debug, PartialEq, Eq, Structural)]
pub enum WpType {
    I32,
    I64,
    F32,
    F64,
    FuncRef,
    ExternRef,
}

/// True for the kinds allocated from the vector-register class; integer and
/// reference kinds go to the general-purpose class.
pub open spec fn is_float_kind(ty: WpType) -> bool {
    ty == WpType::F32 || ty == WpType::F64
}

/// The calling convention in effect for the function being compiled.
#[derive(Clone, Copy, Debug, PartialEq, Eq, Structural)]
pub enum CallingConvention {
    /// The default convention: six integer argument registers, stack
    /// arguments from offset 16 above the frame base.
    SystemV,
    /// The alternate convention: four integer argument registers, a 32-byte
    /// shadow space, stack arguments from offset 48 above the frame base.
    WindowsFastcall,
}

} // verus!
