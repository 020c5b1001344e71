//! Identities of the physical registers the allocator hands out.

use vstd::prelude::*;

verus! {

/// An x86-64 general-purpose register.
#[derive(Clone, Copy, Debug, PartialEq, Eq, Structural)]
pub enum GPR {
    RAX,
    RCX,
    RDX,
    RBX,
    RSP,
    RBP,
    RSI,
    RDI,
    R8,
    R9,
    R10,
    R11,
    R12,
    R13,
    R14,
    R15,
}

/// The encoding index of a general-purpose register; also the order in
/// which used-register lists are reported.
pub open spec fn gpr_rank(r: GPR) -> int {
    match r {
        GPR::RAX => 0,
        GPR::RCX => 1,
        GPR::RDX => 2,
        GPR::RBX => 3,
        GPR::RSP => 4,
        GPR::RBP => 5,
        GPR::RSI => 6,
        GPR::RDI => 7,
        GPR::R8 => 8,
        GPR::R9 => 9,
        GPR::R10 => 10,
        GPR::R11 => 11,
        GPR::R12 => 12,
        GPR::R13 => 13,
        GPR::R14 => 14,
        GPR::R15 => 15,
    }
}

/// Executable twin of `gpr_rank`.
pub fn gpr_index(r: GPR) -> (i: usize)
    ensures
        i == gpr_rank(r),
{
    match r {
        GPR::RAX => 0,
        GPR::RCX => 1,
        GPR::RDX => 2,
        GPR::RBX => 3,
        GPR::RSP => 4,
        GPR::RBP => 5,
        GPR::RSI => 6,
        GPR::RDI => 7,
        GPR::R8 => 8,
        GPR::R9 => 9,
        GPR::R10 => 10,
        GPR::R11 => 11,
        GPR::R12 => 12,
        GPR::R13 => 13,
        GPR::R14 => 14,
        GPR::R15 => 15,
    }
}

/// An x86-64 vector (SSE) register.
#[derive(Clone, Copy, Debug, PartialEq, Eq, Structural)]
pub enum XMM {
    XMM0,
    XMM1,
    XMM2,
    XMM3,
    XMM4,
    XMM5,
    XMM6,
    XMM7,
}

/// The encoding index of a vector register; also the order in which
/// used-register lists are reported.
pub open spec fn xmm_rank(x: XMM) -> int {
    match x {
        XMM::XMM0 => 0,
        XMM::XMM1 => 1,
        XMM::XMM2 => 2,
        XMM::XMM3 => 3,
        XMM::XMM4 => 4,
        XMM::XMM5 => 5,
        XMM::XMM6 => 6,
        XMM::XMM7 => 7,
    }
}

/// Executable twin of `xmm_rank`.
pub fn xmm_index(x: XMM) -> (i: usize)
    ensures
        i == xmm_rank(x),
{
    match x {
        XMM::XMM0 => 0,
        XMM::XMM1 => 1,
        XMM::XMM2 => 2,
        XMM::XMM3 => 3,
        XMM::XMM4 => 4,
        XMM::XMM5 => 5,
        XMM::XMM6 => 6,
        XMM::XMM7 => 7,
    }
}

/// The general-purpose register of a given rank: inverse of `gpr_rank`
/// on `0..16`.
pub open spec fn gpr_of_rank(i: int) -> GPR {
    if i == 0 { GPR::RAX }
    else if i == 1 { GPR::RCX }
    else if i == 2 { GPR::RDX }
    else if i == 3 { GPR::RBX }
    else if i == 4 { GPR::RSP }
    else if i == 5 { GPR::RBP }
    else if i == 6 { GPR::RSI }
    else if i == 7 { GPR::RDI }
    else if i == 8 { GPR::R8 }
    else if i == 9 { GPR::R9 }
    else if i == 10 { GPR::R10 }
    else if i == 11 { GPR::R11 }
    else if i == 12 { GPR::R12 }
    else if i == 13 { GPR::R13 }
    else if i == 14 { GPR::R14 }
    else { GPR::R15 }
}

/// Executable twin of `gpr_of_rank`.
pub fn gpr_from_index(i: usize) -> (r: GPR)
    requires
        i < 16,
    ensures
        r == gpr_of_rank(i as int),
{
    if i == 0 { GPR::RAX }
    else if i == 1 { GPR::RCX }
    else if i == 2 { GPR::RDX }
    else if i == 3 { GPR::RBX }
    else if i == 4 { GPR::RSP }
    else if i == 5 { GPR::RBP }
    else if i == 6 { GPR::RSI }
    else if i == 7 { GPR::RDI }
    else if i == 8 { GPR::R8 }
    else if i == 9 { GPR::R9 }
    else if i == 10 { GPR::R10 }
    else if i == 11 { GPR::R11 }
    else if i == 12 { GPR::R12 }
    else if i == 13 { GPR::R13 }
    else if i == 14 { GPR::R14 }
    else { GPR::R15 }
}

/// No two general-purpose registers share a rank.
pub proof fn lemma_gpr_rank_injective(a: GPR, b: GPR)
    requires
        gpr_rank(a) == gpr_rank(b),
    ensures
        a == b,
{
}

/// No two vector registers share a rank.
pub proof fn lemma_xmm_rank_injective(a: XMM, b: XMM)
    requires
        xmm_rank(a) == xmm_rank(b),
    ensures
        a == b,
{
}

/// The vector register of a given rank: inverse of `xmm_rank` on `0..8`.
pub open spec fn xmm_of_rank(i: int) -> XMM {
    if i == 0 { XMM::XMM0 }
    else if i == 1 { XMM::XMM1 }
    else if i == 2 { XMM::XMM2 }
    else if i == 3 { XMM::XMM3 }
    else if i == 4 { XMM::XMM4 }
    else if i == 5 { XMM::XMM5 }
    else if i == 6 { XMM::XMM6 }
    else { XMM::XMM7 }
}

/// Executable twin of `xmm_of_rank`.
pub fn xmm_from_index(i: usize) -> (x: XMM)
    requires
        i < 8,
    ensures
        x == xmm_of_rank(i as int),
{
    if i == 0 { XMM::XMM0 }
    else if i == 1 { XMM::XMM1 }
    else if i == 2 { XMM::XMM2 }
    else if i == 3 { XMM::XMM3 }
    else if i == 4 { XMM::XMM4 }
    else if i == 5 { XMM::XMM5 }
    else if i == 6 { XMM::XMM6 }
    else { XMM::XMM7 }
}

} // verus!
