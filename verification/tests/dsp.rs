use gecko::dsp::alu::{imm_alu, inc_dec, ImmAluOp, IncDecOp};
use gecko::dsp::condition::BranchControl;
use gecko::dsp::flow::{control, ControlOp};
use gecko::dsp::instr::DspInstruction;
use gecko::dsp::machine::Dsp;
use gecko::dsp::memory::{load_store, LoadStoreOp};
use gecko::dsp::stack::DspStack;

#[test]
fn stack_is_last_in_first_out() {
    let mut s: DspStack<8> = DspStack::default();
    assert!(s.is_empty());
    s.push(1);
    s.push(2);
    assert_eq!(s.top(), 2);
    s.set_top(3);
    assert_eq!(s.pop(), 3);
    assert_eq!(s.pop(), 1);
    assert!(s.is_empty());
}

#[test]
fn addi_adds_to_the_middle_word() {
    let mut dsp = Dsp::new();
    imm_alu(&mut dsp, ImmAluOp::Addi, DspInstruction(0x0200_0010));
    assert_eq!(dsp.registers.ac(0), 0x10_0000);
    assert!(!dsp.registers.sign_extended());
}

#[test]
fn inc_then_dec_restores_the_accumulator() {
    let mut dsp = Dsp::new();
    inc_dec(&mut dsp, IncDecOp::Inc, DspInstruction(0));
    assert_eq!(dsp.registers.ac(0), 1);
    inc_dec(&mut dsp, IncDecOp::Dec, DspInstruction(0));
    assert_eq!(dsp.registers.ac(0), 0);
}

#[test]
fn register_store_and_load_through_data_memory() {
    let mut dsp = Dsp::new();
    // lri $ar1, #0x1234
    load_store(&mut dsp, LoadStoreOp::Lri, DspInstruction(0x0001_1234));
    assert_eq!(dsp.registers.read::<true>(1), 0x1234);
    // sr @0x0010, $ar1
    load_store(&mut dsp, LoadStoreOp::Sr, DspInstruction(0x0001_0010));
    assert_eq!(dsp.read_dmem(0x10), 0x1234);
    // lr $ar2, @0x0010
    load_store(&mut dsp, LoadStoreOp::Lr, DspInstruction(0x0002_0010));
    assert_eq!(dsp.registers.ar[2], 0x1234);
}

#[test]
fn jump_always_and_halt() {
    let mut dsp = Dsp::new();
    assert!(BranchControl::from(0xF).evaluate(&dsp));
    control(&mut dsp, ControlOp::Jcc, DspInstruction(0x000F_0100));
    assert_eq!(dsp.registers.nia, 0x0100);
    control(&mut dsp, ControlOp::Halt, DspInstruction(0));
    assert_eq!(dsp.csr & 0x4, 0x4);
}

#[test]
fn register_write_read_roundtrip() {
    let mut dsp = Dsp::new();
    dsp.registers.write::<true>(4, 0xBEEF);
    assert_eq!(dsp.registers.read::<true>(4), 0xBEEF);
    dsp.registers.write::<true>(0x1E, 0x0042);
    assert_eq!(dsp.registers.read::<false>(0x1E), 0x0042);
}

#[test]
fn dsp_control_register_is_memory_mapped() {
    let mut dsp = Dsp::new();
    dsp.mmio_write_u16(0x0A, 0x0002);
    assert_eq!(dsp.mmio_read_u16(0x0A), 0x0002);
    assert_eq!(dsp.mmio_read_u32(0x0A), 0);
}

#[test]
fn stack_is_empty_when_pushes_match_pops() {
    let mut s: gecko::dsp::stack::DspStack<8> = Default::default();
    assert!(s.is_empty());
    s.push(7);
    assert!(!s.is_empty());
    assert_eq!(s.top(), 7);
    s.push(9);
    assert_eq!(s.top(), 9);
    assert_eq!(s.pop(), 9);
    assert_eq!(s.top(), 7);
    assert!(!s.is_empty());
    assert_eq!(s.pop(), 7);
    assert!(s.is_empty());
}
