use singlepass::emitter::{Instruction, RecordingEmitter};
use singlepass::location::{CallingConvention, Location, Size};
use singlepass::machine::Machine;
use singlepass::regs::GPR;

#[test]
fn init_locals_default_convention_small_frame() {
    let mut machine = Machine::new();
    let mut a = RecordingEmitter::new();
    machine.init_locals(&mut a, 3, 1, CallingConvention::SystemV);

    assert_eq!(
        a.code,
        vec![
            // Reserve 8 (save area) + 3 * 8 (locals) bytes.
            Instruction::Sub(Size::S64, Location::Imm32(32), Location::GPR(GPR::RSP)),
            // Save the context register.
            Instruction::Mov(
                Size::S64,
                Location::GPR(GPR::R15),
                Location::Memory(GPR::RBP, -8),
            ),
            // Copy parameter 1 (arriving in RSI) into local slot 0.
            Instruction::Mov(
                Size::S64,
                Location::GPR(GPR::RSI),
                Location::Memory(GPR::RBP, -16),
            ),
            // Reload the context pointer.
            Instruction::Mov(Size::S64, Location::GPR(GPR::RDI), Location::GPR(GPR::R15)),
            // Zero-initialize local slots 1 and 2.
            Instruction::Mov(Size::S64, Location::Imm64(2), Location::GPR(GPR::RCX)),
            Instruction::Xor(Size::S64, Location::GPR(GPR::RAX), Location::GPR(GPR::RAX)),
            Instruction::Lea(
                Size::S64,
                Location::Memory(GPR::RBP, -32),
                Location::GPR(GPR::RDI),
            ),
            Instruction::RepStosq,
        ]
    );
    assert_eq!(machine.get_stack_offset(), 32);
}

#[test]
fn init_locals_shadow_space_convention_saves_three_registers() {
    let mut machine = Machine::new();
    let mut a = RecordingEmitter::new();
    machine.init_locals(&mut a, 1, 0, CallingConvention::WindowsFastcall);

    assert_eq!(
        a.code,
        vec![
            // Reserve 24 (save area) + 1 * 8 (locals) bytes.
            Instruction::Sub(Size::S64, Location::Imm32(32), Location::GPR(GPR::RSP)),
            Instruction::Mov(
                Size::S64,
                Location::GPR(GPR::R15),
                Location::Memory(GPR::RBP, -8),
            ),
            Instruction::Mov(
                Size::S64,
                Location::GPR(GPR::RDI),
                Location::Memory(GPR::RBP, -16),
            ),
            Instruction::Mov(
                Size::S64,
                Location::GPR(GPR::RSI),
                Location::Memory(GPR::RBP, -24),
            ),
            // Reload the context pointer, which arrives in RCX here.
            Instruction::Mov(Size::S64, Location::GPR(GPR::RCX), Location::GPR(GPR::R15)),
            // Zero-initialize the single local at -(24 + 8).
            Instruction::Mov(Size::S64, Location::Imm64(1), Location::GPR(GPR::RCX)),
            Instruction::Xor(Size::S64, Location::GPR(GPR::RAX), Location::GPR(GPR::RAX)),
            Instruction::Lea(
                Size::S64,
                Location::Memory(GPR::RBP, -32),
                Location::GPR(GPR::RDI),
            ),
            Instruction::RepStosq,
        ]
    );
    assert_eq!(machine.get_stack_offset(), 32);
}

#[test]
fn init_locals_probes_guard_pages_per_stride() {
    let mut machine = Machine::new();
    let mut a = RecordingEmitter::new();
    // 600 locals, no parameters: one probe lands at local 512 before the
    // bulk zero-fill covers everything.
    machine.init_locals(&mut a, 600, 0, CallingConvention::SystemV);

    assert_eq!(
        a.code,
        vec![
            Instruction::Sub(Size::S64, Location::Imm32(4808), Location::GPR(GPR::RSP)),
            Instruction::Mov(
                Size::S64,
                Location::GPR(GPR::R15),
                Location::Memory(GPR::RBP, -8),
            ),
            Instruction::Mov(Size::S64, Location::GPR(GPR::RDI), Location::GPR(GPR::R15)),
            // Guard-page probe at local 512: offset -(513 * 8 + 8).
            Instruction::Mov(
                Size::S64,
                Location::Imm32(0),
                Location::Memory(GPR::RBP, -4112),
            ),
            Instruction::Mov(Size::S64, Location::Imm64(600), Location::GPR(GPR::RCX)),
            Instruction::Xor(Size::S64, Location::GPR(GPR::RAX), Location::GPR(GPR::RAX)),
            Instruction::Lea(
                Size::S64,
                Location::Memory(GPR::RBP, -4808),
                Location::GPR(GPR::RDI),
            ),
            Instruction::RepStosq,
        ]
    );
    assert_eq!(machine.get_stack_offset(), 4808);
}

#[test]
fn finalize_locals_default_convention() {
    let mut machine = Machine::new();
    let mut a = RecordingEmitter::new();
    machine.init_locals(&mut a, 2, 0, CallingConvention::SystemV);
    let n = a.code.len();
    machine.finalize_locals(&mut a, CallingConvention::SystemV);
    assert_eq!(
        &a.code[n..],
        &[
            Instruction::Lea(
                Size::S64,
                Location::Memory(GPR::RBP, -8),
                Location::GPR(GPR::RSP),
            ),
            Instruction::Pop(Size::S64, Location::GPR(GPR::R15)),
        ]
    );
}

#[test]
fn finalize_locals_shadow_space_convention_restores_in_reverse() {
    let mut machine = Machine::new();
    let mut a = RecordingEmitter::new();
    machine.init_locals(&mut a, 2, 0, CallingConvention::WindowsFastcall);
    let n = a.code.len();
    machine.finalize_locals(&mut a, CallingConvention::WindowsFastcall);
    assert_eq!(
        &a.code[n..],
        &[
            Instruction::Lea(
                Size::S64,
                Location::Memory(GPR::RBP, -24),
                Location::GPR(GPR::RSP),
            ),
            Instruction::Pop(Size::S64, Location::GPR(GPR::RSI)),
            Instruction::Pop(Size::S64, Location::GPR(GPR::RDI)),
            Instruction::Pop(Size::S64, Location::GPR(GPR::R15)),
        ]
    );
}

#[test]
fn param_location_default_convention_table() {
    let cc = CallingConvention::SystemV;
    assert_eq!(Machine::get_param_location(0, cc), Location::GPR(GPR::RDI));
    assert_eq!(Machine::get_param_location(1, cc), Location::GPR(GPR::RSI));
    assert_eq!(Machine::get_param_location(2, cc), Location::GPR(GPR::RDX));
    assert_eq!(Machine::get_param_location(3, cc), Location::GPR(GPR::RCX));
    assert_eq!(Machine::get_param_location(4, cc), Location::GPR(GPR::R8));
    assert_eq!(Machine::get_param_location(5, cc), Location::GPR(GPR::R9));
    assert_eq!(
        Machine::get_param_location(6, cc),
        Location::Memory(GPR::RBP, 16)
    );
    assert_eq!(
        Machine::get_param_location(8, cc),
        Location::Memory(GPR::RBP, 32)
    );
}

#[test]
fn param_location_shadow_space_convention_table() {
    let cc = CallingConvention::WindowsFastcall;
    assert_eq!(Machine::get_param_location(0, cc), Location::GPR(GPR::RCX));
    assert_eq!(Machine::get_param_location(1, cc), Location::GPR(GPR::RDX));
    assert_eq!(Machine::get_param_location(2, cc), Location::GPR(GPR::R8));
    // Index 3 still arrives in a register ...
    assert_eq!(Machine::get_param_location(3, cc), Location::GPR(GPR::R9));
    // ... while index 5 lives past the 32-byte shadow space on the stack.
    assert!(matches!(
        Machine::get_param_location(5, cc),
        Location::Memory(GPR::RBP, _)
    ));
    assert_eq!(
        Machine::get_param_location(5, cc),
        Location::Memory(GPR::RBP, 56)
    );
    assert_eq!(
        Machine::get_param_location(4, cc),
        Location::Memory(GPR::RBP, 48)
    );
}

#[test]
fn local_slots_follow_the_save_area() {
    let mut machine = Machine::new();
    let mut a = RecordingEmitter::new();
    machine.init_locals(&mut a, 4, 0, CallingConvention::SystemV);
    assert_eq!(
        machine.get_local_location(0),
        Location::Memory(GPR::RBP, -16)
    );
    assert_eq!(
        machine.get_local_location(3),
        Location::Memory(GPR::RBP, -40)
    );
}
