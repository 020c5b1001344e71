use singlepass::emitter::{Instruction, RecordingEmitter};
use singlepass::location::{Location, Size, WpType};
use singlepass::machine::Machine;
use singlepass::regs::{GPR, XMM};

#[test]
fn test_release_locations_keep_state_nopanic() {
    let mut machine = Machine::new();
    let mut assembler = RecordingEmitter::new();
    let locs = machine.acquire_locations(
        &mut assembler,
        &(0..10).map(|_| WpType::I32).collect::<Vec<_>>(),
        false,
    );

    machine.release_locations_keep_state(&mut assembler, locs.as_slice());
}

#[test]
fn acquire_ten_ints_spills_four() {
    let mut machine = Machine::new();
    let mut assembler = RecordingEmitter::new();
    let locs = machine.acquire_locations(&mut assembler, &[WpType::I32; 10], false);
    assert_eq!(
        locs.as_slice(),
        &[
            Location::GPR(GPR::RSI),
            Location::GPR(GPR::RDI),
            Location::GPR(GPR::R8),
            Location::GPR(GPR::R9),
            Location::GPR(GPR::R10),
            Location::GPR(GPR::R11),
            Location::Memory(GPR::RBP, -8),
            Location::Memory(GPR::RBP, -16),
            Location::Memory(GPR::RBP, -24),
            Location::Memory(GPR::RBP, -32),
        ]
    );
    assert_eq!(
        assembler.code,
        vec![Instruction::Sub(
            Size::S64,
            Location::Imm32(32),
            Location::GPR(GPR::RSP),
        )]
    );
    assert_eq!(machine.get_stack_offset(), 32);
}

#[test]
fn acquire_release_round_trip_restores_state() {
    let mut machine = Machine::new();
    let mut assembler = RecordingEmitter::new();
    let outer = machine.acquire_locations(
        &mut assembler,
        &[WpType::I32, WpType::F64, WpType::I64],
        false,
    );
    let gprs_before = machine.get_used_gprs();
    let xmms_before = machine.get_used_xmms();
    let stack_before = machine.get_stack_offset();

    let inner = machine.acquire_locations(&mut assembler, &[WpType::I32; 8], false);
    assert_ne!(machine.get_used_gprs(), gprs_before);
    machine.release_locations(&mut assembler, inner.as_slice());

    assert_eq!(machine.get_used_gprs(), gprs_before);
    assert_eq!(machine.get_used_xmms(), xmms_before);
    assert_eq!(machine.get_stack_offset(), stack_before);
}

#[test]
fn release_empty_list_is_a_noop() {
    let mut machine = Machine::new();
    let mut assembler = RecordingEmitter::new();
    machine.release_locations(&mut assembler, &[]);
    assert_eq!(assembler.code.len(), 0);
    assert_eq!(machine.get_stack_offset(), 0);
    assert!(machine.get_used_gprs().is_empty());
    assert!(machine.get_used_xmms().is_empty());
}

#[test]
fn keep_state_emits_restore_but_mutates_nothing() {
    let mut machine = Machine::new();
    let mut assembler = RecordingEmitter::new();
    let locs = machine.acquire_locations(&mut assembler, &[WpType::I32; 10], false);
    let code_len_before = assembler.code.len();

    machine.release_locations_keep_state(&mut assembler, locs.as_slice());

    assert_eq!(
        &assembler.code[code_len_before..],
        &[Instruction::Add(
            Size::S64,
            Location::Imm32(32),
            Location::GPR(GPR::RSP),
        )]
    );
    assert_eq!(machine.get_stack_offset(), 32);
    assert_eq!(machine.get_used_gprs().len(), 6);
}

#[test]
fn release_only_regs_keeps_stack() {
    let mut machine = Machine::new();
    let mut assembler = RecordingEmitter::new();
    let locs = machine.acquire_locations(&mut assembler, &[WpType::I32; 8], false);
    machine.release_locations_only_regs(locs.as_slice());
    assert!(machine.get_used_gprs().is_empty());
    assert_eq!(machine.get_stack_offset(), 16);
    // No instruction is emitted beyond the original stack extension.
    assert_eq!(assembler.code.len(), 1);
}

#[test]
fn release_only_stack_keeps_registers() {
    let mut machine = Machine::new();
    let mut assembler = RecordingEmitter::new();
    let locs = machine.acquire_locations(&mut assembler, &[WpType::I32; 8], false);
    machine.release_locations_only_stack(&mut assembler, locs.as_slice());
    assert_eq!(machine.get_used_gprs().len(), 6);
    assert_eq!(machine.get_stack_offset(), 0);
    assert_eq!(
        assembler.code.last(),
        Some(&Instruction::Add(
            Size::S64,
            Location::Imm32(16),
            Location::GPR(GPR::RSP),
        ))
    );
}

#[test]
fn acquire_zeroed_emits_one_move_per_location() {
    let mut machine = Machine::new();
    let mut assembler = RecordingEmitter::new();
    let locs = machine.acquire_locations(&mut assembler, &[WpType::I32; 7], true);
    assert_eq!(locs.as_slice().len(), 7);
    // One stack extension for the single spilled slot, then one zeroing
    // move per acquired location.
    assert_eq!(assembler.code.len(), 8);
    assert_eq!(
        assembler.code[0],
        Instruction::Sub(Size::S64, Location::Imm32(8), Location::GPR(GPR::RSP))
    );
    for (k, loc) in locs.as_slice().iter().enumerate() {
        assert_eq!(
            assembler.code[k + 1],
            Instruction::Mov(Size::S64, Location::Imm32(0), *loc)
        );
    }
}

#[test]
fn float_kinds_draw_from_xmm_pool() {
    let mut machine = Machine::new();
    let mut assembler = RecordingEmitter::new();
    let locs = machine.acquire_locations(
        &mut assembler,
        &[
            WpType::F32,
            WpType::F64,
            WpType::F64,
            WpType::F32,
            WpType::F64,
            WpType::F64,
        ],
        false,
    );
    assert_eq!(
        locs.as_slice(),
        &[
            Location::XMM(XMM::XMM3),
            Location::XMM(XMM::XMM4),
            Location::XMM(XMM::XMM5),
            Location::XMM(XMM::XMM6),
            Location::XMM(XMM::XMM7),
            Location::Memory(GPR::RBP, -8),
        ]
    );
    assert_eq!(machine.get_used_gprs().len(), 0);
    assert_eq!(machine.get_used_xmms().len(), 5);
}

#[test]
fn reference_kinds_draw_from_gpr_pool() {
    let mut machine = Machine::new();
    let mut assembler = RecordingEmitter::new();
    let locs = machine.acquire_locations(
        &mut assembler,
        &[WpType::FuncRef, WpType::ExternRef],
        false,
    );
    assert_eq!(
        locs.as_slice(),
        &[Location::GPR(GPR::RSI), Location::GPR(GPR::RDI)]
    );
}

#[test]
fn temp_gpr_pool_is_rax_rcx_rdx() {
    let mut machine = Machine::new();
    assert_eq!(machine.acquire_temp_gpr(), Some(GPR::RAX));
    assert_eq!(machine.acquire_temp_gpr(), Some(GPR::RCX));
    assert_eq!(machine.acquire_temp_gpr(), Some(GPR::RDX));
    assert_eq!(machine.acquire_temp_gpr(), None);
    machine.release_temp_gpr(GPR::RCX);
    assert_eq!(machine.acquire_temp_gpr(), Some(GPR::RCX));
}

#[test]
fn temp_xmm_pool_is_xmm0_to_xmm2() {
    let mut machine = Machine::new();
    assert_eq!(machine.acquire_temp_xmm(), Some(XMM::XMM0));
    assert_eq!(machine.acquire_temp_xmm(), Some(XMM::XMM1));
    assert_eq!(machine.acquire_temp_xmm(), Some(XMM::XMM2));
    assert_eq!(machine.acquire_temp_xmm(), None);
    machine.release_temp_xmm(XMM::XMM1);
    assert_eq!(machine.acquire_temp_xmm(), Some(XMM::XMM1));
}

#[test]
fn reserve_specific_register_blocks_it() {
    let mut machine = Machine::new();
    assert_eq!(machine.reserve_unused_temp_gpr(GPR::RCX), GPR::RCX);
    assert_eq!(machine.acquire_temp_gpr(), Some(GPR::RAX));
    assert_eq!(machine.acquire_temp_gpr(), Some(GPR::RDX));
    assert_eq!(machine.acquire_temp_gpr(), None);
}

#[test]
fn used_registers_are_reported_in_rank_order() {
    let mut machine = Machine::new();
    let mut assembler = RecordingEmitter::new();
    // Fill the general pool (RSI, RDI, R8..R11) and one temporary.
    let _locs = machine.acquire_locations(&mut assembler, &[WpType::I64; 3], false);
    machine.reserve_unused_temp_gpr(GPR::RAX);
    assert_eq!(
        machine.get_used_gprs(),
        vec![GPR::RAX, GPR::RSI, GPR::RDI, GPR::R8]
    );
}

#[test]
fn pick_does_not_mark_used() {
    let machine = Machine::new();
    assert_eq!(machine.pick_gpr(), Some(GPR::RSI));
    assert_eq!(machine.pick_gpr(), Some(GPR::RSI));
    assert_eq!(machine.pick_temp_gpr(), Some(GPR::RAX));
    assert_eq!(machine.pick_xmm(), Some(XMM::XMM3));
    assert_eq!(machine.pick_temp_xmm(), Some(XMM::XMM0));
    assert_eq!(machine.get_used_gprs().len(), 0);
}

#[test]
fn vmctx_register_is_r15() {
    assert_eq!(Machine::get_vmctx_reg(), GPR::R15);
}

#[test]
fn later_spills_continue_below_committed_slots() {
    let mut machine = Machine::new();
    let mut assembler = RecordingEmitter::new();
    // Seven integer requests: six registers, one spill at -8.
    let first = machine.acquire_locations(&mut assembler, &[WpType::I32; 7], false);
    assert_eq!(
        first.as_slice().last(),
        Some(&Location::Memory(GPR::RBP, -8))
    );
    // Two more must spill strictly below the committed slot.
    let second = machine.acquire_locations(&mut assembler, &[WpType::I32; 2], false);
    assert_eq!(
        second.as_slice(),
        &[
            Location::Memory(GPR::RBP, -16),
            Location::Memory(GPR::RBP, -24),
        ]
    );
    assert_eq!(
        assembler.code.last(),
        Some(&Instruction::Sub(
            Size::S64,
            Location::Imm32(16),
            Location::GPR(GPR::RSP),
        ))
    );
    assert_eq!(machine.get_stack_offset(), 24);
}
