//! The instruction sink the allocator drives. The allocator never encodes
//! bytes; it only appends abstract operations to an emitter, so the
//! contract of every allocator operation can state exactly which
//! instructions it appended.

use vstd::prelude::*;
use crate::location::{Location, Size};

verus! {

/// One abstract instruction appended to the output stream.
#[derive(Clone, Copy, Debug, PartialEq, Eq, Structural)]
pub enum Instruction {
    /// `mov` of the given width from the first operand to the second.
    Mov(Size, Location, Location),
    /// `add` of the given width of the first operand into the second.
    Add(Size, Location, Location),
    /// `sub` of the given width of the first operand from the second.
    Sub(Size, Location, Location),
    /// `xor` of the given width of the first operand into the second.
    Xor(Size, Location, Location),
    /// Load the effective address of the first operand into the second.
    Lea(Size, Location, Location),
    /// `rep stosq`: store RAX at [RDI] upward, RCX times.
    RepStosq,
    /// Pop the top of the machine stack into the operand.
    Pop(Size, Location),
}

/// An append-only sink of abstract instructions. Each `emit_*` method
/// promises to append exactly one instruction to the stream.
pub trait Emitter {
    /// The instructions emitted so far, in order.
    spec fn stream(&self) -> Seq<Instruction>;

    fn emit_mov(&mut self, sz: Size, src: Location, dst: Location)
        ensures
            final(self).stream() == old(self).stream().push(Instruction::Mov(sz, src, dst)),
    ;

    fn emit_add(&mut self, sz: Size, src: Location, dst: Location)
        ensures
            final(self).stream() == old(self).stream().push(Instruction::Add(sz, src, dst)),
    ;

    fn emit_sub(&mut self, sz: Size, src: Location, dst: Location)
        ensures
            final(self).stream() == old(self).stream().push(Instruction::Sub(sz, src, dst)),
    ;

    fn emit_xor(&mut self, sz: Size, src: Location, dst: Location)
        ensures
            final(self).stream() == old(self).stream().push(Instruction::Xor(sz, src, dst)),
    ;

    fn emit_lea(&mut self, sz: Size, src: Location, dst: Location)
        ensures
            final(self).stream() == old(self).stream().push(Instruction::Lea(sz, src, dst)),
    ;

    fn emit_rep_stosq(&mut self)
        ensures
            final(self).stream() == old(self).stream().push(Instruction::RepStosq),
    ;

    fn emit_pop(&mut self, sz: Size, dst: Location)
        ensures
            final(self).stream() == old(self).stream().push(Instruction::Pop(sz, dst)),
    ;
}

/// An emitter that records the instruction stream as a vector, for tests
/// and for callers that encode the stream elsewhere.
pub struct RecordingEmitter {
    /// The instructions recorded so far.
    pub code: Vec<Instruction>,
}

impl RecordingEmitter {
    pub fn new() -> (r: RecordingEmitter)
        ensures
            r.stream() == Seq::<Instruction>::empty(),
    {
        RecordingEmitter { code: Vec::new() }
    }
}

impl Emitter for RecordingEmitter {
    open spec fn stream(&self) -> Seq<Instruction> {
        self.code@
    }

    fn emit_mov(&mut self, sz: Size, src: Location, dst: Location) {
        self.code.push(Instruction::Mov(sz, src, dst));
    }

    fn emit_add(&mut self, sz: Size, src: Location, dst: Location) {
        self.code.push(Instruction::Add(sz, src, dst));
    }

    fn emit_sub(&mut self, sz: Size, src: Location, dst: Location) {
        self.code.push(Instruction::Sub(sz, src, dst));
    }

    fn emit_xor(&mut self, sz: Size, src: Location, dst: Location) {
        self.code.push(Instruction::Xor(sz, src, dst));
    }

    fn emit_lea(&mut self, sz: Size, src: Location, dst: Location) {
        self.code.push(Instruction::Lea(sz, src, dst));
    }

    fn emit_rep_stosq(&mut self) {
        self.code.push(Instruction::RepStosq);
    }

    fn emit_pop(&mut self, sz: Size, dst: Location) {
        self.code.push(Instruction::Pop(sz, dst));
    }
}

} // verus!
