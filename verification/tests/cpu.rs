use gecko::console::Gekko;
use gecko::cpu::blocks::{
    classify_idle_loop, classify_terminator, extension_target, gpr_dataflow, is_idle_loop_terminator,
    mtspr_is_block_safe, validate_idle_loop, IdleClass, TermKind,
};
use gecko::cpu::branch::{eval_bo, BranchControl};
use gecko::cpu::cr_ops::{cr_ops, mcrxr, CrOp};
use gecko::cpu::instr::Instruction;
use gecko::cpu::rotate::{rotate, RotateOp};
use gecko::cpu::state::Cpu;
use gecko::cpu::string::{lswx, stswx};
use gecko::cpu::fast::try_execute_fast_instruction;
use gecko::cpu::step::{RunEnd, StepOutcome};

fn d_form(op: u32, rd: u32, ra: u32, imm: u16) -> u32 {
    (op << 26) | (rd << 21) | (ra << 16) | imm as u32
}

fn x_form(rd: u32, ra: u32, rb: u32, xo: u32, oe: bool, rc: bool) -> u32 {
    (31 << 26) | (rd << 21) | (ra << 16) | (rb << 11) | ((oe as u32) << 10) | (xo << 1) | rc as u32
}

fn console() -> Gekko {
    Gekko::with_rom(&[])
}

#[test]
fn addi_and_addis_build_a_constant() {
    let mut g = console();
    assert!(try_execute_fast_instruction(&mut g, d_form(15, 3, 0, 0x8000)));
    assert!(try_execute_fast_instruction(&mut g, d_form(14, 3, 3, 0xFFFF)));
    assert_eq!(g.cpu.gpr[3], 0x7FFF_FFFF);
}

#[test]
fn ori_oris_and_andi_record() {
    let mut g = console();
    g.cpu.gpr[4] = 0x0000_00F0;
    assert!(try_execute_fast_instruction(&mut g, d_form(24, 4, 5, 0x000F)));
    assert!(try_execute_fast_instruction(&mut g, d_form(25, 5, 5, 0x1234)));
    assert_eq!(g.cpu.gpr[5], 0x1234_00FF);
    assert!(try_execute_fast_instruction(&mut g, d_form(28, 5, 6, 0x0F00)));
    assert_eq!(g.cpu.gpr[6], 0);
    // CR0 = EQ
    assert_eq!(g.cpu.cr >> 28, 0b0010);
}

#[test]
fn add_wraps_and_overflow_forms_fall_back() {
    let mut g = console();
    g.cpu.gpr[1] = 0x7FFF_FFFF;
    g.cpu.gpr[2] = 1;
    // addo. is not a fast-path form: its extended opcode includes OE
    assert!(!try_execute_fast_instruction(&mut g, x_form(3, 1, 2, 266, true, true)));
    assert_eq!(g.cpu.gpr[3], 0);
    assert!(try_execute_fast_instruction(&mut g, x_form(3, 1, 2, 266, false, true)));
    assert_eq!(g.cpu.gpr[3], 0x8000_0000);
    assert_eq!(g.cpu.xer, 0);
    // negative result recorded in CR0
    assert_eq!(g.cpu.cr >> 28, 0b1000);
}

#[test]
fn subfc_and_adde_chain_the_carry() {
    let mut g = console();
    g.cpu.gpr[1] = 5;
    g.cpu.gpr[2] = 7;
    assert!(try_execute_fast_instruction(&mut g, x_form(3, 1, 2, 8, false, false)));
    assert_eq!(g.cpu.gpr[3], 2);
    assert_eq!((g.cpu.xer >> 29) & 1, 1);
    g.cpu.gpr[4] = 0xFFFF_FFFF;
    g.cpu.gpr[5] = 0;
    assert!(try_execute_fast_instruction(&mut g, x_form(6, 4, 5, 138, false, false)));
    assert_eq!(g.cpu.gpr[6], 0);
    assert_eq!((g.cpu.xer >> 29) & 1, 1);
}

#[test]
fn multiply_high_and_divide() {
    let mut g = console();
    g.cpu.gpr[1] = 0xFFFF_FFFE; // -2
    g.cpu.gpr[2] = 0x4000_0000;
    assert!(try_execute_fast_instruction(&mut g, x_form(3, 1, 2, 75, false, false)));
    assert_eq!(g.cpu.gpr[3], 0xFFFF_FFFF);
    assert!(try_execute_fast_instruction(&mut g, x_form(4, 1, 2, 11, false, false)));
    assert_eq!(g.cpu.gpr[4], 0x3FFF_FFFF);
    g.cpu.gpr[5] = (-7i32) as u32;
    g.cpu.gpr[6] = 2;
    assert!(try_execute_fast_instruction(&mut g, x_form(7, 5, 6, 491, false, false)));
    assert_eq!(g.cpu.gpr[7] as i32, -3);
    g.cpu.gpr[6] = 0;
    assert!(try_execute_fast_instruction(&mut g, x_form(7, 5, 6, 491, false, false)));
    assert_eq!(g.cpu.gpr[7], 0xFFFF_FFFF);
    assert!(!try_execute_fast_instruction(&mut g, x_form(7, 5, 6, 491, true, false)));
    assert!(try_execute_fast_instruction(&mut g, d_form(7, 8, 5, 0xFFFD)));
    assert_eq!(g.cpu.gpr[8], 21);
}

#[test]
fn sraw_sets_carry_when_negative_bits_are_lost() {
    let mut g = console();
    g.cpu.gpr[1] = 0xFFFF_FFF5; // -11
    g.cpu.gpr[2] = 1;
    assert!(try_execute_fast_instruction(&mut g, x_form(1, 3, 2, 792, false, false)));
    assert_eq!(g.cpu.gpr[3] as i32, -6);
    assert_eq!((g.cpu.xer >> 29) & 1, 1);
    assert!(try_execute_fast_instruction(&mut g, x_form(1, 4, 0, 954, false, false)));
    assert_eq!(g.cpu.gpr[4], 0xFFFF_FFF5);
}

#[test]
fn loads_and_stores_go_through_memory() {
    let mut g = console();
    g.cpu.gpr[1] = 0x8000_1000;
    g.cpu.gpr[2] = 0xCAFE_BABE;
    // stw r2, 8(r1)
    assert!(try_execute_fast_instruction(&mut g, d_form(36, 2, 1, 8)));
    // lhz r3, 8(r1)
    assert!(try_execute_fast_instruction(&mut g, d_form(40, 3, 1, 8)));
    assert_eq!(g.cpu.gpr[3], 0xCAFE);
    // lha r4, 8(r1)
    assert!(try_execute_fast_instruction(&mut g, d_form(42, 4, 1, 8)));
    assert_eq!(g.cpu.gpr[4], 0xFFFF_CAFE);
    // lbzu r5, 11(r1)
    assert!(try_execute_fast_instruction(&mut g, d_form(35, 5, 1, 11)));
    assert_eq!(g.cpu.gpr[5], 0xBE);
    assert_eq!(g.cpu.gpr[1], 0x8000_100B);
    assert_eq!(g.mmu.phys_read_u32(0x1008), 0xCAFE_BABE);
}

#[test]
fn load_and_store_multiple() {
    let mut g = console();
    g.cpu.gpr[1] = 0x8000_2000;
    g.cpu.gpr[30] = 0x1111_1111;
    g.cpu.gpr[31] = 0x2222_2222;
    // stmw r30, 0(r1)
    assert!(try_execute_fast_instruction(&mut g, d_form(47, 30, 1, 0)));
    assert_eq!(g.mmu.phys_read_u32(0x2004), 0x2222_2222);
    g.cpu.gpr[30] = 0;
    g.cpu.gpr[31] = 0;
    // lmw r30, 0(r1)
    assert!(try_execute_fast_instruction(&mut g, d_form(46, 30, 1, 0)));
    assert_eq!(g.cpu.gpr[30], 0x1111_1111);
    assert_eq!(g.cpu.gpr[31], 0x2222_2222);
}

#[test]
fn floating_point_words_are_not_run() {
    let mut g = console();
    let before = g.cpu.gpr;
    // fadd, ps_add
    assert!(!try_execute_fast_instruction(&mut g, (63 << 26) | (21 << 1)));
    assert!(!try_execute_fast_instruction(&mut g, (4 << 26) | (21 << 1)));
    assert_eq!(g.cpu.gpr, before);
}

#[test]
fn branch_conditional_counts_down_ctr() {
    let mut g = console();
    g.cpu.ctr = 2;
    g.cpu.cia = 0x8000_0100;
    // bdnz -8
    let word = (16 << 26) | (16 << 21) | 0xFFF8;
    assert!(try_execute_fast_instruction(&mut g, word));
    assert_eq!(g.cpu.ctr, 1);
    assert_eq!(g.cpu.nia, 0x8000_00F8);
    g.cpu.nia = 0;
    assert!(try_execute_fast_instruction(&mut g, word));
    assert_eq!(g.cpu.ctr, 0);
    assert_eq!(g.cpu.nia, 0);
}

#[test]
fn branch_and_link_saves_return_address() {
    let mut g = console();
    g.cpu.cia = 0x8000_0100;
    // bl +0x20
    assert!(try_execute_fast_instruction(&mut g, (18 << 26) | 0x20 | 1));
    assert_eq!(g.cpu.nia, 0x8000_0120);
    assert_eq!(g.cpu.lr, 0x8000_0104);
}

#[test]
fn branch_control_decodes_bo() {
    assert!(matches!(BranchControl::from_bo(0b10100), BranchControl::BranchAlways));
    assert!(matches!(BranchControl::from_bo(0b01100), BranchControl::BranchIfConditionTrue));
    assert!(matches!(BranchControl::from_bo(0b00101), BranchControl::BranchIfConditionFalse));
    let bc = BranchControl::from_bo(0b10000);
    assert!(bc.should_decrement_ctr());
    assert!(bc.should_branch(1, false));
    assert!(!bc.should_branch(0, false));
    assert!(!BranchControl::from_bo(0b01100).should_decrement_ctr());
}

#[test]
fn eval_bo_matches_branch_control() {
    let mut cpu = Cpu::new();
    cpu.ctr = 1;
    cpu.cr = 0x2000_0000; // EQ of CR0
    let taken = eval_bo(&mut cpu, 0b01000, 2);
    assert!(!taken);
    assert_eq!(cpu.ctr, 0);
    let taken = eval_bo(&mut cpu, 0b01100, 2);
    assert!(taken);
}

#[test]
fn mtcrf_copies_selected_fields() {
    let mut cpu = Cpu::new();
    cpu.cr = 0x1234_5678;
    cpu.gpr[3] = 0xABCD_EF01;
    // mtcrf 0x81, r3
    let instr = Instruction((31 << 26) | (3 << 21) | (0x81 << 12) | (144 << 1));
    cr_ops(&mut cpu, CrOp::Mtcrf, instr);
    assert_eq!(cpu.cr, 0xA234_5671);
    // mfcr r4
    cr_ops(&mut cpu, CrOp::Mfcr, Instruction((31 << 26) | (4 << 21) | (19 << 1)));
    assert_eq!(cpu.gpr[4], 0xA234_5671);
}

#[test]
fn cr_bit_operations() {
    let mut cpu = Cpu::new();
    cpu.cr = 0x8000_0000;
    // crxor 2, 0, 1
    cr_ops(&mut cpu, CrOp::Crxor, Instruction((19 << 26) | (2 << 21) | (0 << 16) | (1 << 11) | (193 << 1)));
    assert_eq!(cpu.cr, 0xA000_0000);
    // mcrf 1, 0
    cr_ops(&mut cpu, CrOp::Mcrf, Instruction((19 << 26) | (1 << 23)));
    assert_eq!(cpu.cr, 0xAA00_0000);
}

#[test]
fn mcrxr_moves_and_clears_xer_flags() {
    let mut cpu = Cpu::new();
    cpu.xer = 0xE000_0005;
    mcrxr(&mut cpu, Instruction((31 << 26) | (7 << 23)));
    assert_eq!(cpu.cr & 0xF, 0b1110);
    assert_eq!(cpu.xer, 0x0000_0005);
}

#[test]
fn rlwinm_extracts_a_field() {
    let mut cpu = Cpu::new();
    cpu.gpr[3] = 0x1234_5678;
    // rlwinm r4, r3, 8, 24, 31
    rotate(&mut cpu, RotateOp::Rlwinm, Instruction((21 << 26) | (3 << 21) | (4 << 16) | (8 << 11) | (24 << 6) | (31 << 1)));
    assert_eq!(cpu.gpr[4], 0x12);
    // rlwimi r4, r3, 0, 0, 7 with wrap-around mask check via rlwinm 0, 28, 3
    rotate(&mut cpu, RotateOp::Rlwinm, Instruction((21 << 26) | (3 << 21) | (5 << 16) | (0 << 11) | (28 << 6) | (3 << 1)));
    assert_eq!(cpu.gpr[5], 0x1000_0008);
}

#[test]
fn string_store_then_load_restores_bytes() {
    let mut g = console();
    g.cpu.gpr[1] = 0x8000_3000;
    g.cpu.gpr[5] = 0x4142_4344;
    g.cpu.gpr[6] = 0x4546_4748;
    g.cpu.xer = 6;
    // stswx r5, r0, r1
    stswx(&mut g, Instruction((31 << 26) | (5 << 21) | (1 << 11)));
    assert_eq!(g.mmu.phys_read_u32(0x3000), 0x4142_4344);
    assert_eq!(g.mmu.phys_read_u16(0x3004), 0x4546);
    assert_eq!(g.mmu.phys_read_u8(0x3006), 0);
    // lswx r10, r0, r1
    lswx(&mut g, Instruction((31 << 26) | (10 << 21) | (1 << 11)));
    assert_eq!(g.cpu.gpr[10], 0x4142_4344);
    assert_eq!(g.cpu.gpr[11], 0x4546_0000);
}

#[test]
fn instruction_fields_decode() {
    let i = Instruction((31 << 26) | (3 << 21) | (0x10 << 11) | (0x08 << 16) | (339 << 1));
    assert_eq!(i.spr_swapped(), (0x10 << 5) | 0x08);
    assert_eq!(Instruction(0x0000_FFF8).disp(), -8);
    assert_eq!(Instruction(0x0000_0FF8).disp_psq(), -8);
}

#[test]
fn block_terminators_and_extensions() {
    assert_eq!(classify_terminator(Instruction(16 << 26)), Some(TermKind::BranchCond));
    assert_eq!(classify_terminator(Instruction((19 << 26) | (16 << 1))), Some(TermKind::BranchToReg));
    assert_eq!(classify_terminator(Instruction((19 << 26) | (50 << 1))), Some(TermKind::Rfi));
    // mtspr LR is block-safe, mtspr HID4 (1011) is not
    let mtspr = |spr: u32| (31 << 26) | (((spr & 0x1F) << 5 | (spr >> 5)) << 11) | (467 << 1);
    assert_eq!(classify_terminator(Instruction(mtspr(8))), None);
    assert_eq!(classify_terminator(Instruction(mtspr(1011))), Some(TermKind::Mtspr));
    assert!(mtspr_is_block_safe(913));
    assert!(!mtspr_is_block_safe(1010));
    assert_eq!(extension_target(Instruction((18 << 26) | 0x40), 0x8000_0000), Some(0x8000_0040));
    assert_eq!(extension_target(Instruction((18 << 26) | 0x41), 0x8000_0000), None);
}

#[test]
fn polling_loop_is_recognised() {
    // lwz r3, 0(r4); cmpwi r3, 0; beq -8
    let body = [d_form(32, 3, 4, 0), d_form(11, 0, 3, 0), (16 << 26) | (12 << 21) | (2 << 16) | 0xFFF8];
    assert!(validate_idle_loop(&body[..2]));
    assert!(is_idle_loop_terminator(Instruction(body[2]), 0x8000_0008, 0x8000_0000));
    assert_eq!(classify_idle_loop(&body, TermKind::BranchCond, 0x8000_0000), IdleClass::PollingLoop);
    // a loop that increments its own counter is not idle
    let counting = [d_form(14, 3, 3, 1), (16 << 26) | (4 << 21) | 0xFFFC];
    assert_eq!(classify_idle_loop(&counting, TermKind::BranchCond, 0x8000_0000), IdleClass::Busy);
    assert_eq!(classify_idle_loop(&[18 << 26], TermKind::Branch, 0x8000_0000), IdleClass::BranchToSelf);
    assert_eq!(gpr_dataflow(Instruction(d_form(14, 3, 0, 1))), Some((0, 1 << 3)));
}

#[test]
fn run_until_event_steps_the_fast_path() {
    let mut g = Gekko::with_rom(&[0x38, 0x60, 0x00, 0x05, 0x48, 0x00, 0x00, 0x00, 0x44, 0x00, 0x00, 0x02]);
    assert_eq!(g.run_until_event(), StepOutcome::Done);
    assert_eq!(g.cpu.gpr[3], 5);
    assert_eq!(g.cpu.cia, 0);
    assert_eq!(g.cpu.pc, 4);
    assert_eq!(g.cycles, 1);
    // `b .` branches back onto itself.
    assert_eq!(g.run_until_event(), StepOutcome::Done);
    assert_eq!(g.cpu.pc, 4);
    assert_eq!(g.cycles, 2);
}

#[test]
fn run_until_event_leaves_other_forms_alone() {
    // fadd f1, f2, f3: floating point.
    let mut g = Gekko::with_rom(&[0xFC, 0x22, 0x18, 0x2A]);
    assert_eq!(g.run_until_event(), StepOutcome::Float);
    assert_eq!(g.cpu.pc, 0);
    assert_eq!(g.cycles, 0);
}

#[test]
fn run_until_event_reports_unmapped_access() {
    // lwz r3, 0(r4) with r4 outside every memory region.
    let mut g = Gekko::with_rom(&[0x80, 0x64, 0x00, 0x00]);
    g.cpu.gpr[4] = 0x0400_0000;
    assert_eq!(g.run_until_event(), StepOutcome::Fault);
    assert_eq!(g.cpu.gpr[3], 0);
    assert_eq!(g.cpu.pc, 0);
}

fn words(ws: &[u32]) -> Vec<u8> {
    ws.iter().flat_map(|w| w.to_be_bytes()).collect()
}

#[test]
fn spr_moves_run_and_take_one_cycle() {
    // mfspr r0, LR; mtspr CTR, r3; mfspr r5, CTR; mtspr SRR0, r3; mfspr r6, SRR0
    let mut g = Gekko::with_rom(&words(&[0x7C08_02A6, 0x7C69_03A6, 0x7CA9_02A6, 0x7C7A_03A6, 0x7CDA_02A6]));
    g.cpu.lr = 0x8000_1234;
    g.cpu.gpr[3] = 0x55;
    assert_eq!(g.run_until_event(), StepOutcome::Done);
    assert_eq!(g.cpu.gpr[0], 0x8000_1234);
    assert_eq!(g.cpu.cia, 0);
    assert_eq!(g.cpu.pc, 4);
    assert_eq!(g.cycles, 1);
    assert_eq!(g.run_until_event(), StepOutcome::Done);
    assert_eq!(g.cpu.ctr, 0x55);
    assert_eq!(g.run_until_event(), StepOutcome::Done);
    assert_eq!(g.cpu.gpr[5], 0x55);
    assert_eq!(g.run_until_event(), StepOutcome::Done);
    assert_eq!(g.sys.srr0, 0x55);
    assert_eq!(g.run_until_event(), StepOutcome::Done);
    assert_eq!(g.cpu.gpr[6], 0x55);
    assert_eq!(g.cycles, 5);
    assert_eq!(g.cpu.pc, 20);
}

#[test]
fn msr_moves_and_other_sprs() {
    // mtmsr r3; mfmsr r4; mtspr SPRG0, r3; mfspr r7, SPRG0
    let mut g = Gekko::with_rom(&words(&[0x7C60_0124, 0x7C80_00A6, 0x7C70_43A6, 0x7CF0_42A6]));
    g.cpu.gpr[3] = 0x0000_B032;
    for _ in 0..4 {
        assert_eq!(g.run_until_event(), StepOutcome::Done);
    }
    assert_eq!(g.sys.msr, 0x0000_B032);
    assert_eq!(g.cpu.gpr[4], 0x0000_B032);
    assert_eq!(g.sys.spr[272], 0x0000_B032);
    assert_eq!(g.cpu.gpr[7], 0x0000_B032);
}

#[test]
fn system_call_and_return() {
    // at 0x100: sc; the handler at 0xC00: rfi
    let mut rom = vec![0u8; 0xC04];
    rom[0x100..0x104].copy_from_slice(&0x4400_0002u32.to_be_bytes());
    rom[0xC00..0xC04].copy_from_slice(&0x4C00_0064u32.to_be_bytes());
    let mut g = Gekko::with_rom(&rom);
    g.cpu.pc = 0x100;
    g.sys.msr = 0x0000_B032;
    assert_eq!(g.run_until_event(), StepOutcome::Done);
    assert_eq!(g.cpu.pc, 0xC00);
    assert_eq!(g.sys.srr0, 0x104);
    assert_eq!(g.sys.srr1, 0x0000_B032);
    // EE, PR, FP, IR, DR and RI cleared.
    assert_eq!(g.sys.msr, 0x0000_1000);
    assert_eq!(g.run_until_event(), StepOutcome::Done);
    assert_eq!(g.cpu.pc, 0x104);
    assert_eq!(g.sys.msr, 0x0000_B032);
    assert_eq!(g.cycles, 2);
}

#[test]
fn time_base_counts_cycles_from_its_last_write() {
    // mtspr TBL, r3; mftb r4; mftb r5, TBU
    let mut g = Gekko::with_rom(&words(&[0x7C7C_43A6, 0x7C8C_42E6, 0x7CAD_42E6]));
    g.cpu.gpr[3] = 100;
    assert_eq!(g.run_until_event(), StepOutcome::Done);
    assert_eq!(g.run_until_event(), StepOutcome::Done);
    // Written at cycle 0 (the write's own cycle), read one cycle later.
    assert_eq!(g.cpu.gpr[4], 101);
    assert_eq!(g.run_until_event(), StepOutcome::Done);
    assert_eq!(g.cpu.gpr[5], 0);
}

#[test]
fn float_bit_forms_run_in_the_library() {
    // fneg f1, f2; fabs f3, f1; ps_merge10 f4, f2, f5; fmr. f6, f2
    let mut g = Gekko::with_rom(&words(&[0xFC20_1050, 0xFC60_0A10, 0x1082_2CA0, 0xFCC0_1091]));
    g.sys.msr = 0x2000;
    g.fp.ps0[2] = 0x3FF0_0000_0000_0000;
    g.fp.ps1[2] = 0x4000_0000_0000_0000;
    g.fp.ps0[5] = 0x4008_0000_0000_0000;
    g.fp.fpscr.raw = 0xA000_0000;
    for _ in 0..4 {
        assert_eq!(g.run_until_event(), StepOutcome::Done);
    }
    assert_eq!(g.fp.ps0[1], 0xBFF0_0000_0000_0000);
    assert_eq!(g.fp.ps0[3], 0x3FF0_0000_0000_0000);
    assert_eq!(g.fp.ps0[4], 0x4000_0000_0000_0000);
    assert_eq!(g.fp.ps1[4], 0x4008_0000_0000_0000);
    assert_eq!(g.fp.ps0[6], 0x3FF0_0000_0000_0000);
    assert_eq!(g.cpu.cr >> 24 & 0xF, 0xA);
    assert_eq!(g.cycles, 4);
}

#[test]
fn float_forms_need_floating_point_enabled() {
    let mut g = Gekko::with_rom(&words(&[0xFC20_1050]));
    assert_eq!(g.run_until_event(), StepOutcome::Done);
    assert_eq!(g.cpu.pc, 0x800);
    assert_eq!(g.sys.srr0, 0);
}

#[test]
fn caller_completes_a_float_step() {
    // fadd f1, f2, f3
    let mut g = Gekko::with_rom(&words(&[0xFC22_182A]));
    assert_eq!(g.run_until_event(), StepOutcome::Float);
    assert_eq!(g.cycles, 0);
    g.begin_step();
    assert_eq!(g.cpu.cia, 0);
    assert_eq!(g.cpu.nia, 4);
    g.finish_step();
    assert_eq!(g.cpu.pc, 4);
    assert_eq!(g.cycles, 1);
}

#[test]
fn double_loads_and_stores_move_bits() {
    // lfd f1, 0x100(r0); stfdu f1, 8(r3); lfdx f2, r3, r4
    let mut rom = words(&[0xC820_0100, 0xDC23_0008, 0x7C43_24AE]);
    rom.resize(0x120, 0);
    rom[0x100..0x108].copy_from_slice(&0x7FF8_0000_0000_0001u64.to_be_bytes());
    let mut g = Gekko::with_rom(&rom);
    g.sys.msr = 0x2000;
    g.cpu.gpr[3] = 0x108;
    g.cpu.gpr[4] = 0;
    for _ in 0..3 {
        assert_eq!(g.run_until_event(), StepOutcome::Done);
    }
    assert_eq!(g.fp.ps0[1], 0x7FF8_0000_0000_0001);
    assert_eq!(g.cpu.gpr[3], 0x110);
    assert_eq!(g.mmu.phys_read_u32(0x110), 0x7FF8_0000);
    assert_eq!(g.mmu.phys_read_u32(0x114), 0x0000_0001);
    assert_eq!(g.fp.ps0[2], 0x7FF8_0000_0000_0001);
}

#[test]
fn fpscr_bits_set_and_clear() {
    // mtfsb1 3; mtfsb1. 1 (a summary bit: unchanged); mtfsb0 3
    let mut g = Gekko::with_rom(&words(&[0xFC60_004C, 0xFC20_004D, 0xFC60_008C]));
    g.sys.msr = 0x2000;
    assert_eq!(g.run_until_event(), StepOutcome::Done);
    assert_eq!(g.fp.fpscr.raw, 0x1000_0000);
    assert_eq!(g.run_until_event(), StepOutcome::Done);
    assert_eq!(g.fp.fpscr.raw, 0x1000_0000);
    assert_eq!(g.cpu.cr >> 24 & 0xF, 0x1);
    assert_eq!(g.run_until_event(), StepOutcome::Done);
    assert_eq!(g.fp.fpscr.raw, 0);
}

#[test]
fn step_cpu_takes_pending_external_interrupts() {
    // li r3, 5
    let mut g = Gekko::with_rom(&words(&[0x3860_0005]));
    g.pi.cause = 0x0000_0010;
    g.pi.mask = 0x0000_0010;
    // EE clear: the instruction runs, two cycles.
    assert_eq!(g.step_cpu(), StepOutcome::Done);
    assert_eq!(g.cpu.gpr[3], 5);
    assert_eq!(g.cycles, 2);
    // EE set: the interrupt is taken first.
    g.cpu.pc = 0;
    g.sys.msr = 0x0000_8000;
    assert_eq!(g.step_cpu(), StepOutcome::Done);
    assert_eq!(g.cpu.pc, 0x500);
    assert_eq!(g.sys.srr0, 0);
    assert_eq!(g.sys.srr1, 0x0000_8000);
    assert_eq!(g.sys.msr, 0);
    assert_eq!(g.cycles, 4);
}

#[test]
fn step_cpu_takes_the_decrementer_once_it_passes_zero() {
    // li r3, 5 ; li r3, 6
    let mut g = Gekko::with_rom(&words(&[0x3860_0005, 0x3860_0006]));
    g.sys.msr = 0x0000_8000;
    // DEC written as zero at cycle zero: not yet past zero.
    assert!(!g.sys.dec_pending(g.cycles));
    assert_eq!(g.step_cpu(), StepOutcome::Done);
    assert_eq!(g.cpu.gpr[3], 5);
    assert_eq!(g.cycles, 2);
    // Two cycles later it has counted past zero: the interrupt comes first.
    assert!(g.sys.dec_pending(g.cycles));
    assert_eq!(g.step_cpu(), StepOutcome::Done);
    assert_eq!(g.cpu.pc, 0x900);
    assert_eq!(g.sys.srr0, 4);
    assert_eq!(g.sys.srr1, 0x0000_8000);
    assert_eq!(g.sys.msr, 0);
    assert_eq!(g.cycles, 4);
    // The decrementer reads on as before and is no longer pending.
    assert_eq!(g.sys.dec, 0xFFFF_FFFE);
    assert_eq!(g.sys.dec_cycle, 2);
    assert!(!g.sys.dec_pending(g.cycles));
}

#[test]
fn masked_decrementer_lets_the_instruction_run() {
    let mut g = Gekko::with_rom(&words(&[0x3860_0005, 0x3860_0006]));
    g.cycles = 10;
    // EE clear: no interrupt although the decrementer is past zero.
    assert!(g.sys.dec_pending(g.cycles));
    assert_eq!(g.step_cpu(), StepOutcome::Done);
    assert_eq!(g.cpu.gpr[3], 5);
    assert_eq!(g.cpu.pc, 4);
}

#[test]
fn run_until_stops_when_the_condition_holds() {
    // li r3, 5 ; li r3, 6 ; li r3, 7
    let mut g = Gekko::with_rom(&words(&[0x3860_0005, 0x3860_0006, 0x3860_0007]));
    g.cpu.pc = 0x100;
    assert_eq!(g.run_until(0, |g: &Gekko| g.cpu.gpr[3] == 6), RunEnd::Stopped);
    assert_eq!(g.cpu.pc, 8);
    assert_eq!(g.cpu.gpr[3], 6);
    assert_eq!(g.cycles, 4);
}

#[test]
fn run_until_ends_at_a_word_that_is_no_instruction() {
    let mut g = Gekko::with_rom(&words(&[0x3860_0005]));
    assert_eq!(g.run_until(0, |_g: &Gekko| false), RunEnd::Fault);
    assert_eq!(g.cpu.gpr[3], 5);
    assert_eq!(g.cpu.pc, 4);
    assert_eq!(g.cycles, 2);
}

#[test]
fn run_until_hands_floating_point_forms_back() {
    // li r3, 5 ; fadd f1, f2, f3 (floating point enabled)
    let mut g = Gekko::with_rom(&words(&[0x3860_0005, 0xFC22_182A]));
    g.sys.msr = 0x0000_2000;
    assert_eq!(g.run_until(0, |_g: &Gekko| false), RunEnd::Float);
    assert_eq!(g.cpu.pc, 4);
    assert_eq!(g.cycles, 2);
}
