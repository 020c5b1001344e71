//! The per-function register and stack-slot allocator: two disjoint
//! register pools per register class, a strictly LIFO spill region, and
//! the prologue/epilogue protocol built on top of them.

use vstd::prelude::*;
use crate::regs::{GPR, XMM, gpr_rank, xmm_rank, gpr_index, xmm_index, gpr_from_index};
use crate::location::{Location, Size, WpType, CallingConvention, is_float_kind};
use crate::emitter::{Emitter, Instruction};
use crate::locvec::{LocationList, loc_list_seq, loc_list_from_vec};

verus! {

/// The largest frame-relative byte offset the allocator will ever form:
/// offsets are stored as 32-bit signed displacements.
pub open spec fn frame_limit() -> int {
    0x7fff_ffff
}

/// The mathematical state of an allocator: which registers of each class
/// are in use (indexed by register rank), how many bytes are committed
/// below the frame base, and the two offsets fixed at prologue time.
#[verifier::ext_equal]
pub struct MachineModel {
    /// In-use flags of the general-purpose registers, indexed by `gpr_rank`.
    pub gprs: Seq<bool>,
    /// In-use flags of the vector registers, indexed by `xmm_rank`.
    pub xmms: Seq<bool>,
    /// Bytes committed below the frame base.
    pub stack: int,
    /// Offset of the callee-save area boundary, fixed by `init_locals`.
    pub save_area: Option<int>,
    /// Offset at which local-variable slots begin, fixed by `init_locals`.
    pub locals_off: int,
}

impl MachineModel {
    /// Structural well-formedness of an allocator state.
    pub open spec fn wf(self) -> bool {
        &&& self.gprs.len() == 16
        &&& self.xmms.len() == 8
        &&& 0 <= self.stack <= frame_limit()
        &&& self.stack % 8 == 0
        &&& 0 <= self.locals_off <= frame_limit()
        &&& match self.save_area {
            Some(s) => 0 <= s <= frame_limit(),
            None => true,
        }
    }

    /// The same state with one general-purpose register's flag changed.
    pub open spec fn with_gpr(self, r: GPR, used: bool) -> MachineModel {
        MachineModel { gprs: self.gprs.update(gpr_rank(r), used), ..self }
    }

    /// The same state with one vector register's flag changed.
    pub open spec fn with_xmm(self, x: XMM, used: bool) -> MachineModel {
        MachineModel { xmms: self.xmms.update(xmm_rank(x), used), ..self }
    }

    /// The same state with another stack offset.
    pub open spec fn with_stack(self, stack: int) -> MachineModel {
        MachineModel { stack: stack, ..self }
    }
}

/// The first unused register of the general pool of the general-purpose
/// class, in allocation priority order.
pub open spec fn spec_pick_gpr(gprs: Seq<bool>) -> Option<GPR> {
    if !gprs[gpr_rank(GPR::RSI)] { Some(GPR::RSI) }
    else if !gprs[gpr_rank(GPR::RDI)] { Some(GPR::RDI) }
    else if !gprs[gpr_rank(GPR::R8)] { Some(GPR::R8) }
    else if !gprs[gpr_rank(GPR::R9)] { Some(GPR::R9) }
    else if !gprs[gpr_rank(GPR::R10)] { Some(GPR::R10) }
    else if !gprs[gpr_rank(GPR::R11)] { Some(GPR::R11) }
    else { None }
}

/// The first unused register of the temporary pool of the general-purpose
/// class, in allocation priority order.
pub open spec fn spec_pick_temp_gpr(gprs: Seq<bool>) -> Option<GPR> {
    if !gprs[gpr_rank(GPR::RAX)] { Some(GPR::RAX) }
    else if !gprs[gpr_rank(GPR::RCX)] { Some(GPR::RCX) }
    else if !gprs[gpr_rank(GPR::RDX)] { Some(GPR::RDX) }
    else { None }
}

/// The first unused register of the general pool of the vector class, in
/// allocation priority order.
pub open spec fn spec_pick_xmm(xmms: Seq<bool>) -> Option<XMM> {
    if !xmms[xmm_rank(XMM::XMM3)] { Some(XMM::XMM3) }
    else if !xmms[xmm_rank(XMM::XMM4)] { Some(XMM::XMM4) }
    else if !xmms[xmm_rank(XMM::XMM5)] { Some(XMM::XMM5) }
    else if !xmms[xmm_rank(XMM::XMM6)] { Some(XMM::XMM6) }
    else if !xmms[xmm_rank(XMM::XMM7)] { Some(XMM::XMM7) }
    else { None }
}

/// The first unused register of the temporary pool of the vector class,
/// in allocation priority order.
pub open spec fn spec_pick_temp_xmm(xmms: Seq<bool>) -> Option<XMM> {
    if !xmms[xmm_rank(XMM::XMM0)] { Some(XMM::XMM0) }
    else if !xmms[xmm_rank(XMM::XMM1)] { Some(XMM::XMM1) }
    else if !xmms[xmm_rank(XMM::XMM2)] { Some(XMM::XMM2) }
    else { None }
}

/// The register and stack-slot allocator for one function compilation.
pub struct Machine {
    used_gprs: Vec<bool>,
    used_xmms: Vec<bool>,
    stack_offset: usize,
    save_area_offset: Option<usize>,
    /// Memory offset at which local variables begin; fixed by `init_locals`.
    locals_offset: usize,
}

impl View for Machine {
    type V = MachineModel;

    closed spec fn view(&self) -> MachineModel {
        MachineModel {
            gprs: self.used_gprs@,
            xmms: self.used_xmms@,
            stack: self.stack_offset as int,
            save_area: match self.save_area_offset {
                Some(s) => Some(s as int),
                None => None,
            },
            locals_off: self.locals_offset as int,
        }
    }
}

/// A vector of `n` cleared in-use flags.
fn make_flags(n: usize) -> (v: Vec<bool>)
    ensures
        v@.len() == n,
        forall|i: int| 0 <= i < n ==> !v@[i],
{
    let mut v: Vec<bool> = Vec::new();
    let mut i: usize = 0;
    while i < n
        invariant
            i <= n,
            v@.len() == i,
            forall|j: int| 0 <= j < i ==> !v@[j],
        decreases n - i,
    {
        v.push(false);
        i = i + 1;
    }
    v
}

impl Machine {
    /// A fresh allocator: nothing in use, nothing committed.
    pub fn new() -> (m: Machine)
        ensures
            m@.wf(),
            forall|i: int| 0 <= i < 16 ==> !m@.gprs[i],
            forall|i: int| 0 <= i < 8 ==> !m@.xmms[i],
            m@.stack == 0,
            m@.save_area is None,
            m@.locals_off == 0,
    {
        Machine {
            used_gprs: make_flags(16),
            used_xmms: make_flags(8),
            stack_offset: 0,
            save_area_offset: None,
            locals_offset: 0,
        }
    }

    /// Bytes currently committed below the frame base.
    pub fn get_stack_offset(&self) -> (n: usize)
        ensures
            n == self@.stack,
    {
        self.stack_offset
    }

    /// Whether a general-purpose register is marked in use.
    fn gpr_used(&self, r: GPR) -> (b: bool)
        requires
            self@.wf(),
        ensures
            b == self@.gprs[gpr_rank(r)],
    {
        self.used_gprs[gpr_index(r)]
    }

    /// Whether a vector register is marked in use.
    fn xmm_used(&self, x: XMM) -> (b: bool)
        requires
            self@.wf(),
        ensures
            b == self@.xmms[xmm_rank(x)],
    {
        self.used_xmms[xmm_index(x)]
    }

    /// Set the in-use flag of a general-purpose register.
    fn set_gpr(&mut self, r: GPR, used: bool)
        requires
            old(self)@.wf(),
        ensures
            final(self)@ == old(self)@.with_gpr(r, used),
            final(self)@.wf(),
    {
        let i = gpr_index(r);
        self.used_gprs.set(i, used);
    }

    /// Set the in-use flag of a vector register.
    fn set_xmm(&mut self, x: XMM, used: bool)
        requires
            old(self)@.wf(),
        ensures
            final(self)@ == old(self)@.with_xmm(x, used),
            final(self)@.wf(),
    {
        let i = xmm_index(x);
        self.used_xmms.set(i, used);
    }

    /// The register that carries the context pointer through the body.
    pub fn get_vmctx_reg() -> (r: GPR)
        ensures
            r == GPR::R15,
    {
        GPR::R15
    }

    /// Picks an unused general purpose register for local/stack/argument
    /// use, without marking it used.
    pub fn pick_gpr(&self) -> (r: Option<GPR>)
        requires
            self@.wf(),
        ensures
            r == spec_pick_gpr(self@.gprs),
    {
        if !self.gpr_used(GPR::RSI) { Some(GPR::RSI) }
        else if !self.gpr_used(GPR::RDI) { Some(GPR::RDI) }
        else if !self.gpr_used(GPR::R8) { Some(GPR::R8) }
        else if !self.gpr_used(GPR::R9) { Some(GPR::R9) }
        else if !self.gpr_used(GPR::R10) { Some(GPR::R10) }
        else if !self.gpr_used(GPR::R11) { Some(GPR::R11) }
        else { None }
    }

    /// Picks an unused general purpose register for internal temporary
    /// use, without marking it used.
    pub fn pick_temp_gpr(&self) -> (r: Option<GPR>)
        requires
            self@.wf(),
        ensures
            r == spec_pick_temp_gpr(self@.gprs),
    {
        if !self.gpr_used(GPR::RAX) { Some(GPR::RAX) }
        else if !self.gpr_used(GPR::RCX) { Some(GPR::RCX) }
        else if !self.gpr_used(GPR::RDX) { Some(GPR::RDX) }
        else { None }
    }

    /// Acquires a temporary GPR: the picked register, now marked used, or
    /// `None` with the state unchanged when the pool is exhausted.
    pub fn acquire_temp_gpr(&mut self) -> (r: Option<GPR>)
        requires
            old(self)@.wf(),
        ensures
            final(self)@.wf(),
            r == spec_pick_temp_gpr(old(self)@.gprs),
            match r {
                Some(x) => final(self)@ == old(self)@.with_gpr(x, true),
                None => final(self)@ == old(self)@,
            },
    {
        let gpr = self.pick_temp_gpr();
        if let Some(x) = gpr {
            self.set_gpr(x, true);
        }
        gpr
    }

    /// Releases a temporary GPR; releasing one that is not in use is an
    /// internal-consistency violation and is excluded outright.
    pub fn release_temp_gpr(&mut self, gpr: GPR)
        requires
            old(self)@.wf(),
            old(self)@.gprs[gpr_rank(gpr)],
        ensures
            final(self)@.wf(),
            final(self)@ == old(self)@.with_gpr(gpr, false),
    {
        self.set_gpr(gpr, false);
    }

    /// Force-marks a specific register used; it must have been free.
    pub fn reserve_unused_temp_gpr(&mut self, gpr: GPR) -> (r: GPR)
        requires
            old(self)@.wf(),
            !old(self)@.gprs[gpr_rank(gpr)],
        ensures
            final(self)@.wf(),
            final(self)@ == old(self)@.with_gpr(gpr, true),
            r == gpr,
    {
        self.set_gpr(gpr, true);
        gpr
    }

    /// Picks an unused XMM register, without marking it used.
    pub fn pick_xmm(&self) -> (r: Option<XMM>)
        requires
            self@.wf(),
        ensures
            r == spec_pick_xmm(self@.xmms),
    {
        if !self.xmm_used(XMM::XMM3) { Some(XMM::XMM3) }
        else if !self.xmm_used(XMM::XMM4) { Some(XMM::XMM4) }
        else if !self.xmm_used(XMM::XMM5) { Some(XMM::XMM5) }
        else if !self.xmm_used(XMM::XMM6) { Some(XMM::XMM6) }
        else if !self.xmm_used(XMM::XMM7) { Some(XMM::XMM7) }
        else { None }
    }

    /// Picks an unused XMM register for internal temporary use, without
    /// marking it used.
    pub fn pick_temp_xmm(&self) -> (r: Option<XMM>)
        requires
            self@.wf(),
        ensures
            r == spec_pick_temp_xmm(self@.xmms),
    {
        if !self.xmm_used(XMM::XMM0) { Some(XMM::XMM0) }
        else if !self.xmm_used(XMM::XMM1) { Some(XMM::XMM1) }
        else if !self.xmm_used(XMM::XMM2) { Some(XMM::XMM2) }
        else { None }
    }

    /// Acquires a temporary XMM register: the picked register, now marked
    /// used, or `None` with the state unchanged on exhaustion.
    pub fn acquire_temp_xmm(&mut self) -> (r: Option<XMM>)
        requires
            old(self)@.wf(),
        ensures
            final(self)@.wf(),
            r == spec_pick_temp_xmm(old(self)@.xmms),
            match r {
                Some(x) => final(self)@ == old(self)@.with_xmm(x, true),
                None => final(self)@ == old(self)@,
            },
    {
        let xmm = self.pick_temp_xmm();
        if let Some(x) = xmm {
            self.set_xmm(x, true);
        }
        xmm
    }

    /// Releases a temporary XMM register; releasing one that is not in
    /// use is an internal-consistency violation and is excluded outright.
    pub fn release_temp_xmm(&mut self, xmm: XMM)
        requires
            old(self)@.wf(),
            old(self)@.xmms[xmm_rank(xmm)],
        ensures
            final(self)@.wf(),
            final(self)@ == old(self)@.with_xmm(xmm, false),
    {
        self.set_xmm(xmm, false);
    }

    /// The in-use general-purpose registers, in rank order.
    pub fn get_used_gprs(&self) -> (r: Vec<GPR>)
        requires
            self@.wf(),
        ensures
            forall|j: int| 0 <= j < r@.len() ==> self@.gprs[gpr_rank(#[trigger] r@[j])],
            forall|j: int, k: int| 0 <= j < k < r@.len() ==> gpr_rank(r@[j]) < gpr_rank(r@[k]),
            forall|g: GPR| self@.gprs[gpr_rank(g)] ==> r@.contains(g),
    {
        let mut result: Vec<GPR> = Vec::new();
        let mut i: usize = 0;
        while i < 16
            invariant
                self@.wf(),
                i <= 16,
                forall|j: int| 0 <= j < result@.len() ==> self@.gprs[gpr_rank(#[trigger] result@[j])],
                forall|j: int| 0 <= j < result@.len() ==> gpr_rank(#[trigger] result@[j]) < i,
                forall|j: int, k: int| 0 <= j < k < result@.len()
                    ==> gpr_rank(result@[j]) < gpr_rank(result@[k]),
                forall|g: GPR| gpr_rank(g) < i && self@.gprs[gpr_rank(g)] ==> result@.contains(g),
            decreases 16 - i,
        {
            if self.used_gprs[i] {
                let g = gpr_from_index(i);
                let ghost pre = result@;
                result.push(g);
                proof {
                    assert forall|g2: GPR| gpr_rank(g2) < i + 1 && self@.gprs[gpr_rank(g2)]
                        implies result@.contains(g2) by {
                        if gpr_rank(g2) < i {
                            assert(pre.contains(g2));
                            let k = choose|k: int| 0 <= k < pre.len() && pre[k] == g2;
                            assert(pre[k] == g2);
                            assert(result@[k] == g2);
                        } else {
                            crate::regs::lemma_gpr_rank_injective(g2, g);
                            assert(result@[result@.len() - 1] == g);
                        }
                    }
                }
            }
            i = i + 1;
        }
        assert(forall|g: GPR| 0 <= #[trigger] gpr_rank(g) < 16);
        result
    }

    /// The in-use vector registers, in rank order.
    pub fn get_used_xmms(&self) -> (r: Vec<XMM>)
        requires
            self@.wf(),
        ensures
            forall|j: int| 0 <= j < r@.len() ==> self@.xmms[xmm_rank(#[trigger] r@[j])],
            forall|j: int, k: int| 0 <= j < k < r@.len() ==> xmm_rank(r@[j]) < xmm_rank(r@[k]),
            forall|x: XMM| self@.xmms[xmm_rank(x)] ==> r@.contains(x),
    {
        let mut result: Vec<XMM> = Vec::new();
        let mut i: usize = 0;
        while i < 8
            invariant
                self@.wf(),
                i <= 8,
                forall|j: int| 0 <= j < result@.len() ==> self@.xmms[xmm_rank(#[trigger] result@[j])],
                forall|j: int| 0 <= j < result@.len() ==> xmm_rank(#[trigger] result@[j]) < i,
                forall|j: int, k: int| 0 <= j < k < result@.len()
                    ==> xmm_rank(result@[j]) < xmm_rank(result@[k]),
                forall|x: XMM| xmm_rank(x) < i && self@.xmms[xmm_rank(x)] ==> result@.contains(x),
            decreases 8 - i,
        {
            if self.used_xmms[i] {
                let x = crate::regs::xmm_from_index(i);
                let ghost pre = result@;
                result.push(x);
                proof {
                    assert forall|x2: XMM| xmm_rank(x2) < i + 1 && self@.xmms[xmm_rank(x2)]
                        implies result@.contains(x2) by {
                        if xmm_rank(x2) < i {
                            assert(pre.contains(x2));
                            let k = choose|k: int| 0 <= k < pre.len() && pre[k] == x2;
                            assert(pre[k] == x2);
                            assert(result@[k] == x2);
                        } else {
                            crate::regs::lemma_xmm_rank_injective(x2, x);
                            assert(result@[result@.len() - 1] == x);
                        }
                    }
                }
            }
            i = i + 1;
        }
        assert(forall|x: XMM| 0 <= #[trigger] xmm_rank(x) < 8);
        result
    }
}


/// One step of an acquisition: the location granted for one requested
/// value kind, and the state after granting it. Float kinds draw on the
/// vector-class general pool, everything else on the general-purpose
/// pool; on exhaustion a fresh 8-byte spill slot is committed.
pub open spec fn spec_acquire_one(m: MachineModel, ty: WpType) -> (MachineModel, Location) {
    if is_float_kind(ty) {
        match spec_pick_xmm(m.xmms) {
            Some(x) => (m.with_xmm(x, true), Location::XMM(x)),
            None => (m.with_stack(m.stack + 8), Location::Memory(GPR::RBP, (-(m.stack + 8)) as i32)),
        }
    } else {
        match spec_pick_gpr(m.gprs) {
            Some(g) => (m.with_gpr(g, true), Location::GPR(g)),
            None => (m.with_stack(m.stack + 8), Location::Memory(GPR::RBP, (-(m.stack + 8)) as i32)),
        }
    }
}

/// The state and granted locations after acquiring one location per
/// requested kind, in order.
pub open spec fn spec_acquire(m: MachineModel, tys: Seq<WpType>) -> (MachineModel, Seq<Location>)
    decreases tys.len(),
{
    if tys.len() == 0 {
        (m, Seq::empty())
    } else {
        let prev = spec_acquire(m, tys.drop_last());
        let step = spec_acquire_one(prev.0, tys.last());
        (step.0, prev.1.push(step.1))
    }
}

/// An acquisition only adds whole spill slots, keeps the state well
/// formed, and never touches the offsets fixed at prologue time.
pub proof fn lemma_acquire_props(m: MachineModel, tys: Seq<WpType>)
    requires
        m.wf(),
        m.stack + 8 * tys.len() <= frame_limit(),
    ensures
        spec_acquire(m, tys).0.wf(),
        m.stack <= spec_acquire(m, tys).0.stack <= m.stack + 8 * tys.len(),
        spec_acquire(m, tys).0.save_area == m.save_area,
        spec_acquire(m, tys).0.locals_off == m.locals_off,
        spec_acquire(m, tys).1.len() == tys.len(),
    decreases tys.len(),
{
    if tys.len() > 0 {
        lemma_acquire_props(m, tys.drop_last());
    }
}

/// The single stack-pointer decrement an acquisition emits when it
/// committed new spill bytes, and nothing otherwise.
pub open spec fn stack_extend_stream(delta: int) -> Seq<Instruction> {
    if delta != 0 {
        seq![Instruction::Sub(Size::S64, Location::Imm32(delta as u32), Location::GPR(GPR::RSP))]
    } else {
        Seq::empty()
    }
}

/// The single stack-pointer increment a release emits when it freed
/// spill bytes, and nothing otherwise.
pub open spec fn stack_restore_stream(delta: int) -> Seq<Instruction> {
    if delta != 0 {
        seq![Instruction::Add(Size::S64, Location::Imm32(delta as u32), Location::GPR(GPR::RSP))]
    } else {
        Seq::empty()
    }
}

/// One zeroing move per acquired location, in acquisition order.
pub open spec fn zero_fill_stream(locs: Seq<Location>) -> Seq<Instruction> {
    Seq::new(locs.len(), |i: int| Instruction::Mov(Size::S64, Location::Imm32(0), locs[i]))
}

impl Machine {
    /// Acquires one location per requested value kind, preferring an
    /// unused register of the matching class and spilling to a fresh
    /// stack slot on exhaustion. Emits one stack-pointer adjustment for
    /// the total newly committed bytes, then, if `zeroed`, one zeroing
    /// move per granted location.
    pub fn acquire_locations<E: Emitter>(
        &mut self,
        assembler: &mut E,
        tys: &[WpType],
        zeroed: bool,
    ) -> (r: LocationList)
        requires
            old(self)@.wf(),
            old(self)@.stack + 8 * tys@.len() <= frame_limit(),
        ensures
            final(self)@ == spec_acquire(old(self)@, tys@).0,
            final(self)@.wf(),
            loc_list_seq(r) == spec_acquire(old(self)@, tys@).1,
            final(assembler).stream() == old(assembler).stream()
                + stack_extend_stream(spec_acquire(old(self)@, tys@).0.stack - old(self)@.stack)
                + (if zeroed { zero_fill_stream(spec_acquire(old(self)@, tys@).1) } else { Seq::empty() }),
    {
        let ghost m0 = self@;
        let ghost s0 = assembler.stream();
        let mut ret: Vec<Location> = Vec::new();
        let mut delta_stack_offset: usize = 0;
        let mut i: usize = 0;
        while i < tys.len()
            invariant
                self@.wf(),
                i <= tys@.len(),
                m0.wf(),
                m0.stack + 8 * tys@.len() <= frame_limit(),
                self@ == spec_acquire(m0, tys@.take(i as int)).0,
                ret@ == spec_acquire(m0, tys@.take(i as int)).1,
                delta_stack_offset == self@.stack - m0.stack,
                assembler.stream() == s0,
            decreases tys@.len() - i,
        {
            proof {
                lemma_acquire_props(m0, tys@.take(i as int));
                assert(tys@.take(i + 1).drop_last() =~= tys@.take(i as int));
                assert(tys@.take(i + 1).last() == tys@[i as int]);
            }
            let ty = tys[i];
            let loc: Location;
            match ty {
                WpType::F32 | WpType::F64 => {
                    match self.pick_xmm() {
                        Some(x) => {
                            self.set_xmm(x, true);
                            loc = Location::XMM(x);
                        }
                        None => {
                            self.stack_offset = self.stack_offset + 8;
                            delta_stack_offset = delta_stack_offset + 8;
                            loc = Location::Memory(GPR::RBP, -(self.stack_offset as i32));
                        }
                    }
                }
                _ => {
                    match self.pick_gpr() {
                        Some(g) => {
                            self.set_gpr(g, true);
                            loc = Location::GPR(g);
                        }
                        None => {
                            self.stack_offset = self.stack_offset + 8;
                            delta_stack_offset = delta_stack_offset + 8;
                            loc = Location::Memory(GPR::RBP, -(self.stack_offset as i32));
                        }
                    }
                }
            }
            ret.push(loc);
            i = i + 1;
        }
        proof {
            assert(tys@.take(tys@.len() as int) =~= tys@);
            lemma_acquire_props(m0, tys@);
        }
        if delta_stack_offset != 0 {
            assembler.emit_sub(
                Size::S64,
                Location::Imm32(delta_stack_offset as u32),
                Location::GPR(GPR::RSP),
            );
        }
        proof {
            assert(assembler.stream() =~= s0 + stack_extend_stream(self@.stack - m0.stack));
        }
        if zeroed {
            let ghost s1 = assembler.stream();
            let mut j: usize = 0;
            while j < ret.len()
                invariant
                    j <= ret@.len(),
                    assembler.stream() == s1 + zero_fill_stream(ret@).take(j as int),
                decreases ret@.len() - j,
            {
                let l = ret[j];
                assembler.emit_mov(Size::S64, Location::Imm32(0), l);
                proof {
                    assert(s1 + zero_fill_stream(ret@).take(j + 1)
                        =~= (s1 + zero_fill_stream(ret@).take(j as int)).push(
                            Instruction::Mov(Size::S64, Location::Imm32(0), ret@[j as int])));
                }
                j = j + 1;
            }
            proof {
                assert(zero_fill_stream(ret@).take(ret@.len() as int) =~= zero_fill_stream(ret@));
                assert(assembler.stream() == s1 + zero_fill_stream(ret@));
            }
        } else {
            proof {
                assert(assembler.stream() =~= (s0
                    + stack_extend_stream(self@.stack - m0.stack)) + Seq::<Instruction>::empty());
            }
        }
        loc_list_from_vec(ret)
    }
}


/// One step of a full release, processing one location. `None` marks an
/// internal-consistency violation: an unheld register, or a frame-relative
/// spill slot that is not the current top of stack.
pub open spec fn spec_release_one(m: MachineModel, loc: Location) -> Option<MachineModel> {
    match loc {
        Location::GPR(g) => if m.gprs[gpr_rank(g)] { Some(m.with_gpr(g, false)) } else { None },
        Location::XMM(x) => if m.xmms[xmm_rank(x)] { Some(m.with_xmm(x, false)) } else { None },
        Location::Memory(base, off) => if base == GPR::RBP {
            if off < 0 && -(off as int) == m.stack && m.stack >= 8 {
                Some(m.with_stack(m.stack - 8))
            } else {
                None
            }
        } else {
            Some(m)
        },
        _ => Some(m),
    }
}

/// One step of a register-only release: spill slots are left to be
/// reclaimed by other means.
pub open spec fn spec_release_one_regs(m: MachineModel, loc: Location) -> Option<MachineModel> {
    match loc {
        Location::GPR(g) => if m.gprs[gpr_rank(g)] { Some(m.with_gpr(g, false)) } else { None },
        Location::XMM(x) => if m.xmms[xmm_rank(x)] { Some(m.with_xmm(x, false)) } else { None },
        _ => Some(m),
    }
}

/// One step of a stack-only release: register flags are left untouched.
pub open spec fn spec_release_one_stack(m: MachineModel, loc: Location) -> Option<MachineModel> {
    match loc {
        Location::Memory(base, off) => if base == GPR::RBP {
            if off < 0 && -(off as int) == m.stack && m.stack >= 8 {
                Some(m.with_stack(m.stack - 8))
            } else {
                None
            }
        } else {
            Some(m)
        },
        _ => Some(m),
    }
}

/// The state after a full release of `locs`, processed last to first;
/// `None` marks an internal-consistency violation.
pub open spec fn spec_release(m: MachineModel, locs: Seq<Location>) -> Option<MachineModel>
    decreases locs.len(),
{
    if locs.len() == 0 {
        Some(m)
    } else {
        match spec_release_one(m, locs.last()) {
            Some(m1) => spec_release(m1, locs.drop_last()),
            None => None,
        }
    }
}

/// The state after a register-only release of `locs`, last to first.
pub open spec fn spec_release_regs(m: MachineModel, locs: Seq<Location>) -> Option<MachineModel>
    decreases locs.len(),
{
    if locs.len() == 0 {
        Some(m)
    } else {
        match spec_release_one_regs(m, locs.last()) {
            Some(m1) => spec_release_regs(m1, locs.drop_last()),
            None => None,
        }
    }
}

/// The state after a stack-only release of `locs`, last to first.
pub open spec fn spec_release_stack(m: MachineModel, locs: Seq<Location>) -> Option<MachineModel>
    decreases locs.len(),
{
    if locs.len() == 0 {
        Some(m)
    } else {
        match spec_release_one_stack(m, locs.last()) {
            Some(m1) => spec_release_stack(m1, locs.drop_last()),
            None => None,
        }
    }
}

/// A full release keeps the state well formed, only lowers the stack
/// offset, and never touches the offsets fixed at prologue time.
pub proof fn lemma_release_props(m: MachineModel, locs: Seq<Location>)
    requires
        m.wf(),
        spec_release(m, locs) is Some,
    ensures
        spec_release(m, locs).unwrap().wf(),
        spec_release(m, locs).unwrap().stack <= m.stack,
        spec_release(m, locs).unwrap().save_area == m.save_area,
        spec_release(m, locs).unwrap().locals_off == m.locals_off,
    decreases locs.len(),
{
    if locs.len() > 0 {
        let m1 = spec_release_one(m, locs.last()).unwrap();
        lemma_release_props(m1, locs.drop_last());
    }
}

/// A register-only release never touches the stack offset nor the
/// offsets fixed at prologue time.
pub proof fn lemma_release_regs_props(m: MachineModel, locs: Seq<Location>)
    requires
        m.wf(),
        spec_release_regs(m, locs) is Some,
    ensures
        spec_release_regs(m, locs).unwrap().wf(),
        spec_release_regs(m, locs).unwrap().stack == m.stack,
        spec_release_regs(m, locs).unwrap().save_area == m.save_area,
        spec_release_regs(m, locs).unwrap().locals_off == m.locals_off,
    decreases locs.len(),
{
    if locs.len() > 0 {
        let m1 = spec_release_one_regs(m, locs.last()).unwrap();
        lemma_release_regs_props(m1, locs.drop_last());
    }
}

/// A stack-only release never touches any register flag nor the offsets
/// fixed at prologue time.
pub proof fn lemma_release_stack_props(m: MachineModel, locs: Seq<Location>)
    requires
        m.wf(),
        spec_release_stack(m, locs) is Some,
    ensures
        spec_release_stack(m, locs).unwrap().wf(),
        spec_release_stack(m, locs).unwrap().stack <= m.stack,
        spec_release_stack(m, locs).unwrap().gprs == m.gprs,
        spec_release_stack(m, locs).unwrap().xmms == m.xmms,
        spec_release_stack(m, locs).unwrap().save_area == m.save_area,
        spec_release_stack(m, locs).unwrap().locals_off == m.locals_off,
    decreases locs.len(),
{
    if locs.len() > 0 {
        let m1 = spec_release_one_stack(m, locs.last()).unwrap();
        lemma_release_stack_props(m1, locs.drop_last());
    }
}

impl Machine {
    /// Releases locations used for stack values, last acquired first:
    /// frees their registers, retires their spill slots in strict LIFO
    /// order, and emits one stack-pointer restore for the freed bytes.
    pub fn release_locations<E: Emitter>(&mut self, assembler: &mut E, locs: &[Location])
        requires
            old(self)@.wf(),
            spec_release(old(self)@, locs@) is Some,
        ensures
            final(self)@ == spec_release(old(self)@, locs@).unwrap(),
            final(self)@.wf(),
            final(assembler).stream() == old(assembler).stream()
                + stack_restore_stream(old(self)@.stack - final(self)@.stack),
    {
        let ghost m0 = self@;
        let ghost s0 = assembler.stream();
        let mut delta_stack_offset: usize = 0;
        let mut i: usize = locs.len();
        proof {
            assert(locs@.take(locs@.len() as int) =~= locs@);
        }
        while i > 0
            invariant
                self@.wf(),
                m0.wf(),
                i <= locs@.len(),
                spec_release(m0, locs@) == spec_release(self@, locs@.take(i as int)),
                spec_release(m0, locs@) is Some,
                self@.stack <= m0.stack,
                delta_stack_offset == m0.stack - self@.stack,
                assembler.stream() == s0,
            decreases i,
        {
            i = i - 1;
            proof {
                assert(locs@.take(i + 1).drop_last() =~= locs@.take(i as int));
                assert(locs@.take(i + 1).last() == locs@[i as int]);
            }
            let loc = locs[i];
            match loc {
                Location::GPR(x) => {
                    self.set_gpr(x, false);
                }
                Location::XMM(x) => {
                    self.set_xmm(x, false);
                }
                Location::Memory(GPR::RBP, _x) => {
                    self.stack_offset = self.stack_offset - 8;
                    delta_stack_offset = delta_stack_offset + 8;
                }
                _ => {}
            }
        }
        if delta_stack_offset != 0 {
            assembler.emit_add(
                Size::S64,
                Location::Imm32(delta_stack_offset as u32),
                Location::GPR(GPR::RSP),
            );
        }
        proof {
            assert(assembler.stream() =~= s0 + stack_restore_stream(m0.stack - self@.stack));
        }
    }

    /// Frees the registers of the given locations, last acquired first,
    /// without touching the stack bookkeeping and without emitting any
    /// instruction.
    pub fn release_locations_only_regs(&mut self, locs: &[Location])
        requires
            old(self)@.wf(),
            spec_release_regs(old(self)@, locs@) is Some,
        ensures
            final(self)@ == spec_release_regs(old(self)@, locs@).unwrap(),
            final(self)@.wf(),
            final(self)@.stack == old(self)@.stack,
    {
        let ghost m0 = self@;
        let mut i: usize = locs.len();
        proof {
            assert(locs@.take(locs@.len() as int) =~= locs@);
        }
        while i > 0
            invariant
                self@.wf(),
                m0.wf(),
                i <= locs@.len(),
                spec_release_regs(m0, locs@) == spec_release_regs(self@, locs@.take(i as int)),
                spec_release_regs(m0, locs@) is Some,
                self@.stack == m0.stack,
            decreases i,
        {
            i = i - 1;
            proof {
                assert(locs@.take(i + 1).drop_last() =~= locs@.take(i as int));
                assert(locs@.take(i + 1).last() == locs@[i as int]);
            }
            let loc = locs[i];
            match loc {
                Location::GPR(x) => {
                    self.set_gpr(x, false);
                }
                Location::XMM(x) => {
                    self.set_xmm(x, false);
                }
                _ => {}
            }
        }
    }

    /// Retires the spill slots of the given locations, last acquired
    /// first, and emits one stack-pointer restore for the freed bytes;
    /// register flags are left untouched.
    pub fn release_locations_only_stack<E: Emitter>(&mut self, assembler: &mut E, locs: &[Location])
        requires
            old(self)@.wf(),
            spec_release_stack(old(self)@, locs@) is Some,
        ensures
            final(self)@ == spec_release_stack(old(self)@, locs@).unwrap(),
            final(self)@.wf(),
            final(assembler).stream() == old(assembler).stream()
                + stack_restore_stream(old(self)@.stack - final(self)@.stack),
    {
        let ghost m0 = self@;
        let ghost s0 = assembler.stream();
        let mut delta_stack_offset: usize = 0;
        let mut i: usize = locs.len();
        proof {
            assert(locs@.take(locs@.len() as int) =~= locs@);
        }
        while i > 0
            invariant
                self@.wf(),
                m0.wf(),
                i <= locs@.len(),
                spec_release_stack(m0, locs@) == spec_release_stack(self@, locs@.take(i as int)),
                spec_release_stack(m0, locs@) is Some,
                self@.stack <= m0.stack,
                delta_stack_offset == m0.stack - self@.stack,
                assembler.stream() == s0,
            decreases i,
        {
            i = i - 1;
            proof {
                assert(locs@.take(i + 1).drop_last() =~= locs@.take(i as int));
                assert(locs@.take(i + 1).last() == locs@[i as int]);
            }
            let loc = locs[i];
            match loc {
                Location::Memory(GPR::RBP, _x) => {
                    self.stack_offset = self.stack_offset - 8;
                    delta_stack_offset = delta_stack_offset + 8;
                }
                _ => {}
            }
        }
        if delta_stack_offset != 0 {
            assembler.emit_add(
                Size::S64,
                Location::Imm32(delta_stack_offset as u32),
                Location::GPR(GPR::RSP),
            );
        }
        proof {
            assert(assembler.stream() =~= s0 + stack_restore_stream(m0.stack - self@.stack));
        }
    }

    /// Emits the stack-pointer restore that a release of `locs` would
    /// emit, for a diverging code path, while mutating no allocator
    /// state at all.
    pub fn release_locations_keep_state<E: Emitter>(&self, assembler: &mut E, locs: &[Location])
        requires
            self@.wf(),
            spec_release_stack(self@, locs@) is Some,
        ensures
            final(assembler).stream() == old(assembler).stream()
                + stack_restore_stream(self@.stack - spec_release_stack(self@, locs@).unwrap().stack),
    {
        let ghost s0 = assembler.stream();
        let mut delta_stack_offset: usize = 0;
        let mut stack_offset: usize = self.stack_offset;
        let mut i: usize = locs.len();
        proof {
            assert(locs@.take(locs@.len() as int) =~= locs@);
            assert(self@.with_stack(self@.stack) =~= self@);
        }
        while i > 0
            invariant
                self@.wf(),
                i <= locs@.len(),
                spec_release_stack(self@, locs@)
                    == spec_release_stack(self@.with_stack(stack_offset as int), locs@.take(i as int)),
                spec_release_stack(self@, locs@) is Some,
                stack_offset <= self@.stack,
                delta_stack_offset == self@.stack - stack_offset,
                assembler.stream() == s0,
            decreases i,
        {
            i = i - 1;
            proof {
                assert(locs@.take(i + 1).drop_last() =~= locs@.take(i as int));
                assert(locs@.take(i + 1).last() == locs@[i as int]);
            }
            let loc = locs[i];
            match loc {
                Location::Memory(GPR::RBP, _x) => {
                    stack_offset = stack_offset - 8;
                    delta_stack_offset = delta_stack_offset + 8;
                }
                _ => {}
            }
        }
        if delta_stack_offset != 0 {
            assembler.emit_add(
                Size::S64,
                Location::Imm32(delta_stack_offset as u32),
                Location::GPR(GPR::RSP),
            );
        }
        proof {
            assert(spec_release_stack(self@, locs@).unwrap().stack == stack_offset as int);
            assert(assembler.stream() =~= s0 + stack_restore_stream(self@.stack - stack_offset as int));
        }
    }
}


/// Bytes in one native page; guard-page probes are spaced one page apart.
pub const NATIVE_PAGE_SIZE: usize = 4096;

/// The largest number of locals `init_locals` accepts; keeps every
/// frame-relative offset comfortably inside a 32-bit displacement.
pub open spec fn max_locals() -> int {
    0x00ff_ffff
}

/// Where a logical parameter arrives on function entry: index 0 is the
/// implicit context pointer, indices beyond the register slots live in
/// caller-stack memory above the frame base.
pub open spec fn spec_param_location(idx: int, cc: CallingConvention) -> Location {
    match cc {
        CallingConvention::WindowsFastcall =>
            if idx == 0 { Location::GPR(GPR::RCX) }
            else if idx == 1 { Location::GPR(GPR::RDX) }
            else if idx == 2 { Location::GPR(GPR::R8) }
            else if idx == 3 { Location::GPR(GPR::R9) }
            else { Location::Memory(GPR::RBP, (16 + 32 + (idx - 4) * 8) as i32) },
        CallingConvention::SystemV =>
            if idx == 0 { Location::GPR(GPR::RDI) }
            else if idx == 1 { Location::GPR(GPR::RSI) }
            else if idx == 2 { Location::GPR(GPR::RDX) }
            else if idx == 3 { Location::GPR(GPR::RCX) }
            else if idx == 4 { Location::GPR(GPR::R8) }
            else if idx == 5 { Location::GPR(GPR::R9) }
            else { Location::Memory(GPR::RBP, (16 + (idx - 6) * 8) as i32) },
    }
}

/// The frame-relative slot of local variable `idx`, immediately below
/// the callee-save area fixed at prologue time.
pub open spec fn spec_local_location(locals_off: int, idx: int) -> Location {
    Location::Memory(GPR::RBP, (-((idx + 1) * 8 + locals_off)) as i32)
}

/// The save-area size of a calling convention: the context-pointer slot,
/// plus two extra callee-saved slots under the shadow-space convention.
pub open spec fn save_area_size_of(cc: CallingConvention) -> int {
    match cc {
        CallingConvention::WindowsFastcall => 24,
        CallingConvention::SystemV => 8,
    }
}

/// The callee-save stores of the prologue: the context register, then,
/// under the shadow-space convention, the two extra callee-saved
/// registers, each into the next slot below the frame base.
pub open spec fn save_area_stream(cc: CallingConvention) -> Seq<Instruction> {
    match cc {
        CallingConvention::WindowsFastcall => seq![
            Instruction::Mov(Size::S64, Location::GPR(GPR::R15), Location::Memory(GPR::RBP, -8i32)),
            Instruction::Mov(Size::S64, Location::GPR(GPR::RDI), Location::Memory(GPR::RBP, -16i32)),
            Instruction::Mov(Size::S64, Location::GPR(GPR::RSI), Location::Memory(GPR::RBP, -24i32)),
        ],
        CallingConvention::SystemV => seq![
            Instruction::Mov(Size::S64, Location::GPR(GPR::R15), Location::Memory(GPR::RBP, -8i32)),
        ],
    }
}

/// The moves that copy incoming parameter `i` into local slot `i`: one
/// move when the parameter arrives in a register, two (through the
/// scratch register) when both sides are memory.
pub open spec fn param_move_stream(cc: CallingConvention, locals_off: int, i: int) -> Seq<Instruction> {
    let src = spec_param_location(i + 1, cc);
    let dst = spec_local_location(locals_off, i);
    match src {
        Location::GPR(_) => seq![Instruction::Mov(Size::S64, src, dst)],
        _ => seq![
            Instruction::Mov(Size::S64, src, Location::GPR(GPR::RAX)),
            Instruction::Mov(Size::S64, Location::GPR(GPR::RAX), dst),
        ],
    }
}

/// The concatenation of the parameter moves for parameters `0..k`.
pub open spec fn param_moves_stream(cc: CallingConvention, locals_off: int, k: int) -> Seq<Instruction>
    decreases k,
{
    if k <= 0 {
        Seq::empty()
    } else {
        param_moves_stream(cc, locals_off, k - 1) + param_move_stream(cc, locals_off, k - 1)
    }
}

/// The guard-page probes: one zero store per page stride of local
/// indices in `i`, `i + 512`, ... below `n`. A page holds 512 slots of
/// 8 bytes.
pub open spec fn probe_stream(locals_off: int, i: int, n: int) -> Seq<Instruction>
    decreases n - i,
{
    if i >= n {
        Seq::empty()
    } else if n - i <= 512 {
        seq![Instruction::Mov(Size::S64, Location::Imm32(0), spec_local_location(locals_off, i))]
    } else {
        seq![Instruction::Mov(Size::S64, Location::Imm32(0), spec_local_location(locals_off, i))]
            + probe_stream(locals_off, i + 512, n)
    }
}

/// The bulk zero-initialization emitted when any non-parameter locals
/// exist: count to RCX, zero to RAX, address of the lowest local to RDI,
/// then one repeated store.
pub open spec fn zero_init_stream(locals_off: int, n_params: int, n: int) -> Seq<Instruction> {
    if n > n_params {
        seq![
            Instruction::Mov(Size::S64, Location::Imm64((n - n_params) as u64), Location::GPR(GPR::RCX)),
            Instruction::Xor(Size::S64, Location::GPR(GPR::RAX), Location::GPR(GPR::RAX)),
            Instruction::Lea(Size::S64, spec_local_location(locals_off, n - 1), Location::GPR(GPR::RDI)),
            Instruction::RepStosq,
        ]
    } else {
        Seq::empty()
    }
}

/// Everything `init_locals` emits, in order: the frame reservation, the
/// callee saves, the parameter moves, the context-pointer reload, the
/// guard-page probes, and the bulk zero-initialization.
pub open spec fn init_locals_stream(n: int, n_params: int, cc: CallingConvention) -> Seq<Instruction> {
    seq![Instruction::Sub(
        Size::S64,
        Location::Imm32((save_area_size_of(cc) + 8 * n) as u32),
        Location::GPR(GPR::RSP),
    )]
    + save_area_stream(cc)
    + param_moves_stream(cc, save_area_size_of(cc), n_params)
    + seq![Instruction::Mov(Size::S64, spec_param_location(0, cc), Location::GPR(GPR::R15))]
    + probe_stream(save_area_size_of(cc), n_params + 512, n)
    + zero_init_stream(save_area_size_of(cc), n_params, n)
}

/// Everything `finalize_locals` emits: rewind the stack pointer to the
/// save-area boundary, then pop the saved registers in reverse order of
/// how the prologue saved them.
pub open spec fn finalize_locals_stream(save_area: int, cc: CallingConvention) -> Seq<Instruction> {
    seq![Instruction::Lea(
        Size::S64,
        Location::Memory(GPR::RBP, (-save_area) as i32),
        Location::GPR(GPR::RSP),
    )]
    + (match cc {
        CallingConvention::WindowsFastcall => seq![
            Instruction::Pop(Size::S64, Location::GPR(GPR::RSI)),
            Instruction::Pop(Size::S64, Location::GPR(GPR::RDI)),
        ],
        CallingConvention::SystemV => Seq::empty(),
    })
    + seq![Instruction::Pop(Size::S64, Location::GPR(GPR::R15))]
}

impl Machine {
    /// Where logical parameter `idx` arrives on entry under the given
    /// calling convention; index 0 is the implicit context pointer.
    pub fn get_param_location(idx: usize, calling_convention: CallingConvention) -> (r: Location)
        requires
            16 + 32 + 8 * (idx as int) <= frame_limit(),
        ensures
            r == spec_param_location(idx as int, calling_convention),
    {
        match calling_convention {
            CallingConvention::WindowsFastcall => match idx {
                0 => Location::GPR(GPR::RCX),
                1 => Location::GPR(GPR::RDX),
                2 => Location::GPR(GPR::R8),
                3 => Location::GPR(GPR::R9),
                _ => Location::Memory(GPR::RBP, ((16 + 32) + (idx - 4) * 8) as i32),
            },
            CallingConvention::SystemV => match idx {
                0 => Location::GPR(GPR::RDI),
                1 => Location::GPR(GPR::RSI),
                2 => Location::GPR(GPR::RDX),
                3 => Location::GPR(GPR::RCX),
                4 => Location::GPR(GPR::R8),
                5 => Location::GPR(GPR::R9),
                _ => Location::Memory(GPR::RBP, (16 + (idx - 6) * 8) as i32),
            },
        }
    }

    /// The fixed frame-relative slot of local variable `idx`.
    pub fn get_local_location(&self, idx: usize) -> (r: Location)
        requires
            ((idx as int) + 1) * 8 + self@.locals_off <= frame_limit(),
        ensures
            r == spec_local_location(self@.locals_off, idx as int),
    {
        Location::Memory(GPR::RBP, -(((idx + 1) * 8 + self.locals_offset) as i32))
    }

    /// The prologue protocol: reserve the static frame, save the context
    /// register (and, under the shadow-space convention, the two extra
    /// callee-saved registers), copy the first `n_params` incoming
    /// parameters into their local slots, reload the context pointer,
    /// probe the guard pages, and zero the remaining locals.
    #[verifier::rlimit(100)]
    pub fn init_locals<E: Emitter>(
        &mut self,
        a: &mut E,
        n: usize,
        n_params: usize,
        calling_convention: CallingConvention,
    )
        requires
            old(self)@.wf(),
            old(self)@.stack == 0,
            n_params <= n,
            n as int <= max_locals(),
        ensures
            final(self)@.wf(),
            final(self)@ == (MachineModel {
                gprs: old(self)@.gprs,
                xmms: old(self)@.xmms,
                stack: save_area_size_of(calling_convention) + 8 * n,
                save_area: Some(save_area_size_of(calling_convention)),
                locals_off: save_area_size_of(calling_convention),
            }),
            final(a).stream() == old(a).stream()
                + init_locals_stream(n as int, n_params as int, calling_convention),
    {
        let ghost s0 = a.stream();
        let ghost m0 = self@;
        let ghost cc = calling_convention;

        // Total size of the pre-allocated static area: the callee-save
        // slots followed by one 8-byte slot per local.
        let mut static_area_size: usize = 8;
        if calling_convention == CallingConvention::WindowsFastcall {
            static_area_size = static_area_size + 8 * 2;
        }
        self.locals_offset = static_area_size;
        static_area_size = static_area_size + n * 8;

        // Reserve the whole static area without writing to it yet.
        a.emit_sub(
            Size::S64,
            Location::Imm32(static_area_size as u32),
            Location::GPR(GPR::RSP),
        );

        // Save the context register.
        self.stack_offset = self.stack_offset + 8;
        a.emit_mov(
            Size::S64,
            Location::GPR(GPR::R15),
            Location::Memory(GPR::RBP, -(self.stack_offset as i32)),
        );

        if calling_convention == CallingConvention::WindowsFastcall {
            // Save the two extra callee-saved registers.
            self.stack_offset = self.stack_offset + 8;
            a.emit_mov(
                Size::S64,
                Location::GPR(GPR::RDI),
                Location::Memory(GPR::RBP, -(self.stack_offset as i32)),
            );
            self.stack_offset = self.stack_offset + 8;
            a.emit_mov(
                Size::S64,
                Location::GPR(GPR::RSI),
                Location::Memory(GPR::RBP, -(self.stack_offset as i32)),
            );
        }

        // The save-area boundary is now fixed.
        self.save_area_offset = Some(self.stack_offset);

        let ghost s_saves = a.stream();
        proof {
            assert(s_saves =~= s0
                + seq![Instruction::Sub(
                    Size::S64,
                    Location::Imm32((save_area_size_of(cc) + 8 * (n as int)) as u32),
                    Location::GPR(GPR::RSP),
                )]
                + save_area_stream(cc));
        }

        // Copy the incoming parameters into their local slots.
        let mut i: usize = 0;
        while i < n_params
            invariant
                cc == calling_convention,
                self@.wf(),
                i <= n_params,
                n_params <= n,
                n as int <= max_locals(),
                self@.locals_off == save_area_size_of(cc),
                a.stream() == s_saves + param_moves_stream(cc, save_area_size_of(cc), i as int),
            decreases n_params - i,
        {
            let ghost s_pre = a.stream();
            let loc = Machine::get_param_location(i + 1, calling_convention);
            let local_loc = self.get_local_location(i);
            match loc {
                Location::GPR(_) => {
                    a.emit_mov(Size::S64, loc, local_loc);
                    proof {
                        assert(param_move_stream(cc, save_area_size_of(cc), i as int)
                            =~= seq![Instruction::Mov(Size::S64, loc, local_loc)]);
                        assert(a.stream() =~= s_pre + param_move_stream(cc, save_area_size_of(cc), i as int));
                    }
                }
                Location::Memory(_, _) => {
                    a.emit_mov(Size::S64, loc, Location::GPR(GPR::RAX));
                    a.emit_mov(Size::S64, Location::GPR(GPR::RAX), local_loc);
                    proof {
                        assert(param_move_stream(cc, save_area_size_of(cc), i as int)
                            =~= seq![
                                Instruction::Mov(Size::S64, loc, Location::GPR(GPR::RAX)),
                                Instruction::Mov(Size::S64, Location::GPR(GPR::RAX), local_loc),
                            ]);
                        assert(a.stream() =~= s_pre + param_move_stream(cc, save_area_size_of(cc), i as int));
                    }
                }
                _ => {
                    proof {
                        assert(false);
                    }
                }
            }
            proof {
                assert(a.stream() =~= s_saves + param_moves_stream(cc, save_area_size_of(cc), i + 1));
            }
            i = i + 1;
        }

        // Reload the context pointer into its register.
        let ctx_loc = Machine::get_param_location(0, calling_convention);
        a.emit_mov(Size::S64, ctx_loc, Location::GPR(GPR::R15));

        let ghost s_ctx = a.stream();
        let ghost probe_start = (n_params + NATIVE_PAGE_SIZE / 8) as int;

        // Probe the stack guard pages: the bulk store below writes from
        // low addresses upward and could otherwise skip an unmapped
        // guard page, so touch one slot per page stride first.
        let mut i: usize = n_params + NATIVE_PAGE_SIZE / 8;
        while i < n
            invariant
                cc == calling_convention,
                self@.wf(),
                n as int <= max_locals(),
                self@.locals_off == save_area_size_of(cc),
                probe_start <= i as int,
                (i as int - probe_start) % 512 == 0,
                s_ctx + probe_stream(save_area_size_of(cc), probe_start, n as int)
                    == a.stream() + probe_stream(save_area_size_of(cc), i as int, n as int),
            decreases n + 512 - i,
        {
            let l = self.get_local_location(i);
            a.emit_mov(Size::S64, Location::Imm32(0), l);
            proof {
                assert(probe_stream(save_area_size_of(cc), i as int, n as int)
                    =~= seq![Instruction::Mov(Size::S64, Location::Imm32(0),
                        spec_local_location(save_area_size_of(cc), i as int))]
                        + probe_stream(save_area_size_of(cc), i as int + 512, n as int));
                assert(a.stream() + probe_stream(save_area_size_of(cc), i as int + 512, n as int)
                    =~= s_ctx + probe_stream(save_area_size_of(cc), probe_start, n as int));
            }
            i = i + NATIVE_PAGE_SIZE / 8;
        }
        proof {
            assert(a.stream() =~= s_ctx + probe_stream(save_area_size_of(cc), probe_start, n as int));
        }

        // Zero-initialize all non-parameter locals with one repeated
        // store; the lowest local is the store's starting address.
        if n > n_params {
            let init_stack_loc_cnt = n - n_params;
            a.emit_mov(
                Size::S64,
                Location::Imm64(init_stack_loc_cnt as u64),
                Location::GPR(GPR::RCX),
            );
            a.emit_xor(Size::S64, Location::GPR(GPR::RAX), Location::GPR(GPR::RAX));
            let last_stack_loc = self.get_local_location(n - 1);
            a.emit_lea(Size::S64, last_stack_loc, Location::GPR(GPR::RDI));
            a.emit_rep_stosq();
        }

        // Account for the locals now committed below the save area.
        self.stack_offset = self.stack_offset + (static_area_size - self.locals_offset);

        proof {
            assert(a.stream() =~= s0 + init_locals_stream(n as int, n_params as int, cc));
            assert(final(self)@ =~= (MachineModel {
                gprs: m0.gprs,
                xmms: m0.xmms,
                stack: save_area_size_of(cc) + 8 * (n as int),
                save_area: Some(save_area_size_of(cc)),
                locals_off: save_area_size_of(cc),
            }));
        }
    }

    /// The epilogue protocol: rewind the stack pointer to the save-area
    /// boundary, then pop the saved registers in reverse order.
    pub fn finalize_locals<E: Emitter>(&mut self, a: &mut E, calling_convention: CallingConvention)
        requires
            old(self)@.wf(),
            old(self)@.save_area is Some,
        ensures
            final(self)@ == old(self)@,
            final(a).stream() == old(a).stream()
                + finalize_locals_stream(old(self)@.save_area.unwrap(), calling_convention),
    {
        let ghost s0 = a.stream();
        let save_area_offset = self.save_area_offset.unwrap();
        // Unwind the stack to the save area in one instruction.
        a.emit_lea(
            Size::S64,
            Location::Memory(GPR::RBP, -(save_area_offset as i32)),
            Location::GPR(GPR::RSP),
        );
        if calling_convention == CallingConvention::WindowsFastcall {
            // Restore the two extra callee-saved registers.
            a.emit_pop(Size::S64, Location::GPR(GPR::RSI));
            a.emit_pop(Size::S64, Location::GPR(GPR::RDI));
        }
        // Restore the context register.
        a.emit_pop(Size::S64, Location::GPR(GPR::R15));
        proof {
            assert(a.stream() =~= s0
                + finalize_locals_stream(old(self)@.save_area.unwrap(), calling_convention));
        }
    }
}


/// Releasing the single location just granted restores the state the
/// grant started from.
proof fn lemma_acquire_one_release_one(m: MachineModel, ty: WpType)
    requires
        m.wf(),
        m.stack + 8 <= frame_limit(),
    ensures
        spec_release_one(spec_acquire_one(m, ty).0, spec_acquire_one(m, ty).1) == Some(m),
{
    let m1 = spec_acquire_one(m, ty).0;
    if is_float_kind(ty) {
        match spec_pick_xmm(m.xmms) {
            Some(x) => {
                assert(!m.xmms[xmm_rank(x)]);
                assert(m1.with_xmm(x, false).xmms =~= m.xmms);
                assert(m1.with_xmm(x, false) =~= m);
            }
            None => {
                assert((((-(m.stack + 8)) as i32) as int) == -(m.stack + 8));
                assert(m1.with_stack(m.stack) =~= m);
            }
        }
    } else {
        match spec_pick_gpr(m.gprs) {
            Some(g) => {
                assert(!m.gprs[gpr_rank(g)]);
                assert(m1.with_gpr(g, false).gprs =~= m.gprs);
                assert(m1.with_gpr(g, false) =~= m);
            }
            None => {
                assert((((-(m.stack + 8)) as i32) as int) == -(m.stack + 8));
                assert(m1.with_stack(m.stack) =~= m);
            }
        }
    }
}

/// Round-trip law: for a strictly nested acquire/release pair, releasing
/// exactly the locations the acquisition returned restores the entire
/// allocator state -- used-register sets and stack offset alike.
pub proof fn lemma_acquire_release_round_trip(m: MachineModel, tys: Seq<WpType>)
    requires
        m.wf(),
        m.stack + 8 * tys.len() <= frame_limit(),
    ensures
        spec_release(spec_acquire(m, tys).0, spec_acquire(m, tys).1) == Some(m),
    decreases tys.len(),
{
    if tys.len() > 0 {
        let prev = spec_acquire(m, tys.drop_last());
        let step = spec_acquire_one(prev.0, tys.last());
        lemma_acquire_props(m, tys.drop_last());
        lemma_acquire_one_release_one(prev.0, tys.last());
        assert(prev.1.push(step.1).last() == step.1);
        assert(prev.1.push(step.1).drop_last() =~= prev.1);
        lemma_acquire_release_round_trip(m, tys.drop_last());
    }
}

/// Spill law: every location an acquisition places in memory is a
/// frame-relative slot at a multiple of eight bytes, strictly below
/// everything committed before the acquisition and within the bytes it
/// committed; successive spills grow strictly downward.
pub proof fn lemma_acquire_spill_offsets(m: MachineModel, tys: Seq<WpType>)
    requires
        m.wf(),
        m.stack + 8 * tys.len() <= frame_limit(),
    ensures
        forall|i: int| 0 <= i < spec_acquire(m, tys).1.len()
            ==> ((#[trigger] spec_acquire(m, tys).1[i]) matches Location::Memory(base, off) ==> {
                &&& base == GPR::RBP
                &&& m.stack < -(off as int) <= spec_acquire(m, tys).0.stack
                &&& (-(off as int)) % 8 == 0
            }),
        forall|i: int, j: int| 0 <= i < j < spec_acquire(m, tys).1.len()
            ==> ((#[trigger] spec_acquire(m, tys).1[i]) matches Location::Memory(b1, o1)
                ==> ((#[trigger] spec_acquire(m, tys).1[j]) matches Location::Memory(b2, o2)
                    ==> -(o1 as int) < -(o2 as int))),
    decreases tys.len(),
{
    if tys.len() > 0 {
        let prev = spec_acquire(m, tys.drop_last());
        let step = spec_acquire_one(prev.0, tys.last());
        let locs = spec_acquire(m, tys).1;
        lemma_acquire_props(m, tys.drop_last());
        lemma_acquire_spill_offsets(m, tys.drop_last());
        assert(forall|i: int| 0 <= i < prev.1.len() ==> locs[i] == prev.1[i]);
        assert(locs[locs.len() - 1] == step.1);
        if step.1 is Memory {
            assert(step.0.stack == prev.0.stack + 8);
            assert((((-(prev.0.stack + 8)) as i32) as int) == -(prev.0.stack + 8));
        }
    }
}

/// Fatal-release law: a release whose most recently acquired location is
/// a frame-relative slot that does not name the current top of stack has
/// no resulting state; both the full and the stack-only release reject
/// it outright instead of ever succeeding silently.
pub proof fn lemma_release_top_mismatch_fatal(m: MachineModel, locs: Seq<Location>, off: i32)
    requires
        off >= 0 || -(off as int) != m.stack || m.stack < 8,
    ensures
        spec_release(m, locs.push(Location::Memory(GPR::RBP, off))) is None,
        spec_release_stack(m, locs.push(Location::Memory(GPR::RBP, off))) is None,
{
    let l = Location::Memory(GPR::RBP, off);
    assert(locs.push(l).last() == l);
    assert(spec_release_one(m, l) is None);
    assert(spec_release_one_stack(m, l) is None);
}



/// Reserved-register law: the frame base, the stack pointer and the
/// context register are never handed out by either general-purpose pool,
/// whatever the in-use flags say.
pub proof fn lemma_reserved_registers_never_picked(gprs: Seq<bool>)
    ensures
        spec_pick_gpr(gprs) != Some(GPR::RBP),
        spec_pick_gpr(gprs) != Some(GPR::RSP),
        spec_pick_gpr(gprs) != Some(GPR::R15),
        spec_pick_temp_gpr(gprs) != Some(GPR::RBP),
        spec_pick_temp_gpr(gprs) != Some(GPR::RSP),
        spec_pick_temp_gpr(gprs) != Some(GPR::R15),
{
}


/// A stack-only release reads and writes nothing but the stack offset:
/// two states with equal offsets agree on whether it succeeds and on the
/// offset it leaves.
proof fn lemma_release_stack_depends_on_stack_only(
    m1: MachineModel,
    m2: MachineModel,
    locs: Seq<Location>,
)
    requires
        m1.stack == m2.stack,
    ensures
        (spec_release_stack(m1, locs) is Some) == (spec_release_stack(m2, locs) is Some),
        spec_release_stack(m1, locs) is Some
            ==> spec_release_stack(m1, locs).unwrap().stack
                == spec_release_stack(m2, locs).unwrap().stack,
    decreases locs.len(),
{
    if locs.len() > 0 {
        let l = locs.last();
        match spec_release_one_stack(m1, l) {
            Some(n1) => {
                let n2 = spec_release_one_stack(m2, l).unwrap();
                lemma_release_stack_depends_on_stack_only(n1, n2, locs.drop_last());
            }
            None => {}
        }
    }
}

/// Keep-state law: wherever a full release succeeds, the stack-only
/// release plan succeeds too and frees the same number of spill bytes,
/// so `release_locations_keep_state` emits exactly the stack-pointer
/// restore `release_locations` would emit.
pub proof fn lemma_keep_state_matches_release(m: MachineModel, locs: Seq<Location>)
    requires
        spec_release(m, locs) is Some,
    ensures
        spec_release_stack(m, locs) is Some,
        spec_release_stack(m, locs).unwrap().stack == spec_release(m, locs).unwrap().stack,
    decreases locs.len(),
{
    if locs.len() > 0 {
        let l = locs.last();
        let m1 = spec_release_one(m, l).unwrap();
        lemma_keep_state_matches_release(m1, locs.drop_last());
        match l {
            Location::GPR(_) => {
                lemma_release_stack_depends_on_stack_only(m1, m, locs.drop_last());
            }
            Location::XMM(_) => {
                lemma_release_stack_depends_on_stack_only(m1, m, locs.drop_last());
            }
            _ => {}
        }
    }
}

} // verus!
