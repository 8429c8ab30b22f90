use gecko::console::Gekko;
use gecko::debugger::{DebuggerUi, EmulatorState};
use gecko::hw::ai::Ai;
use gecko::hw::gx::Primitive;
use gecko::hw::pi::{InterruptFlag, Pi};
use gecko::hw::vi::Vi;
use gecko::idle::IdleDetector;
use gecko::input::HostInput;
use gecko::ipc::{Bluetooth, EventHook, Immediate, IPC_EINVAL, USB_CTRL, USB_INTR};
use gecko::mmu::Mmu;
use gecko::system::{BlockStats, ExecutionMode, GC, WII};
use gecko::dsp::regs::Registers;
use gecko::tracefmt::{dsp_reg_comment, dsp_reg_comment_text, visible_len};

#[test]
fn ai_counts_samples_at_the_selected_rate() {
    let mut ai = Ai::new();
    assert_eq!(ai.sample_count(1_000_000), 0);
    ai.mmio_write_u32(0x00, 0b01);
    assert_eq!(ai.sample_count(15187 * 3 + 5), 3);
    ai.mmio_write_u32(0x00, 0b11);
    assert_eq!(ai.sample_count(10125 * 7), 7);
}

#[test]
fn ai_interrupt_fires_at_timing_and_acknowledges() {
    let mut ai = Ai::new();
    ai.mmio_write_u32(0x00, 0b101);
    ai.mmio_write_u32(0x0C, 2);
    ai.check_sample_counter_interrupt(15187);
    assert!(!ai.interrupt_active());
    assert_eq!(ai.mmio_read_u32(0x08), 1);
    ai.check_sample_counter_interrupt(15187 * 2);
    assert!(ai.interrupt_active());
    ai.mmio_write_u32(0x00, 0b1101);
    assert!(!ai.interrupt_active());
}

#[test]
fn ai_reset_bit_requests_a_new_counter_base() {
    let mut ai = Ai::new();
    ai.mmio_write_u32(0x00, 0x21);
    assert!(ai.sample_counter_reset_pending);
    assert_eq!(ai.mmio_read_u32(0x00) & 0x20, 0);
    assert_eq!(ai.mmio_read_u8(0x00), 0);
}

#[test]
fn pi_interrupt_flags_set_and_clear() {
    let mut pi = Pi::new();
    pi.assert_interrupt(InterruptFlag::Ai);
    pi.assert_interrupt(InterruptFlag::PeFinish);
    assert_eq!(pi.cause, (1 << 5) | (1 << 10));
    pi.clear_interrupt(InterruptFlag::Ai);
    assert_eq!(pi.mmio_read_u32(0x00), 1 << 10);
    pi.mmio_write_u32(0x04, 0xFF);
    assert_eq!(pi.mask, 0xFF);
    pi.mmio_write_u32(0x00, 0);
    assert_eq!(pi.cause, 1 << 10);
}

#[test]
fn vi_xfb_address_and_registers() {
    let mut vi = Vi::new();
    vi.mmio_write_u32(0x1C, 0x1012_3456);
    assert_eq!(vi.xfb_addr(), 0x0112_3400);
    vi.mmio_write_u16(0x02, 0x0101);
    assert_eq!(vi.mmio_read_u16(0x02), 0x0101);
    assert_eq!(vi.mmio_read_u8(0x02), 0);
    assert_eq!(vi.mmio_read_u32(0x1C), 0x1012_3456);
}

#[test]
fn bus_routes_device_and_memory_accesses() {
    let mut g = Gekko::with_rom(&[1, 2, 3, 4]);
    assert_eq!(g.read_u32(0x8000_0000), 0x0102_0304);
    g.write_u32(0xCC00_6C04, 0x55);
    assert_eq!(g.ai.volume, 0x55);
    assert_eq!(g.read_u32(0xCC00_6C04), 0x55);
    g.write_u16(0xCC00_500A, 0x8001);
    assert_eq!(g.dsp.csr, 0x8001);
    assert_eq!(g.read_u16(0xCC00_500A), 0x8001);
    g.write_u8(0xC000_0010, 0xAB);
    assert_eq!(g.read_u8(0x8000_0010), 0xAB);
    g.write_u32(0xCC00_3004, 0xF0);
    assert_eq!(g.pi.mask, 0xF0);
}

#[test]
fn ai_interrupt_reaches_the_processor_interface() {
    let mut g = Gekko::with_rom(&[]);
    g.ai.mmio_write_u32(0x00, 0b101);
    g.ai.mmio_write_u32(0x0C, 1);
    g.cycles = 15187;
    g.check_ai_interrupts();
    assert_eq!(g.pi.cause & (1 << 5), 1 << 5);
    g.ai.mmio_write_u32(0x00, 0b1101);
    g.ai.mmio_write_u32(0x0C, 0);
    g.check_ai_interrupts();
    assert_eq!(g.pi.cause & (1 << 5), 0);
}

#[test]
fn sample_counter_reset_rebases_at_current_cycle() {
    let mut g = Gekko::with_rom(&[]);
    g.ai.mmio_write_u32(0x00, 0x21);
    g.cycles = 1234;
    g.check_sample_counter_reset();
    assert_eq!(g.ai.sample_counter_base_cycle, 1234);
    assert!(!g.ai.sample_counter_reset_pending);
}

#[test]
fn gx_finish_raises_pe_interrupt_once() {
    let mut g = Gekko::with_rom(&[]);
    // BP register 0x45 with bit 1: PE draw done
    for b in [0x61u8, 0x45, 0x00, 0x00, 0x02] {
        g.gx.mmio_write_u8(b);
    }
    g.check_gx_pe_finish();
    assert_eq!(g.pi.cause & (1 << 10), 1 << 10);
    g.pi.clear_interrupt(InterruptFlag::PeFinish);
    g.check_gx_pe_finish();
    assert_eq!(g.pi.cause & (1 << 10), 0);
}

#[test]
fn cp_and_si_interrupts_follow_device_state() {
    let mut g = Gekko::with_rom(&[]);
    g.check_cp_interrupts();
    g.check_si_interrupts();
    assert_eq!(g.pi.cause, 0);
}

#[test]
fn primitive_decoding_ignores_vertex_format() {
    assert!(matches!(Primitive::from_cmd(0x90), Some(Primitive::Triangles)));
    assert!(matches!(Primitive::from_cmd(0x97), Some(Primitive::Triangles)));
    assert!(Primitive::from_cmd(0x98).is_none());
}

#[test]
fn idle_detector_flags_self_branch_and_polling_loop() {
    let mut off = IdleDetector::new(false);
    assert!(!off.check(0x100, 0x100));
    let mut d = IdleDetector::new(true);
    assert!(d.check(0x100, 0x100));
    for _ in 0..9 {
        assert!(!d.check(0x110, 0x100));
    }
    assert!(d.check(0x110, 0x100));
    assert!(!d.check(0x110, 0x100));
    // far backward branches are not polling loops
    assert!(!d.check(0x1000, 0x100));
}

#[test]
fn host_input_neutral_states() {
    match HostInput::neutral_for(GC) {
        HostInput::Gc(p) => {
            assert!(p.connected);
            assert_eq!(p.buttons, 0);
        }
        _ => panic!("expected a GameCube pad"),
    }
    match HostInput::neutral_for(WII) {
        HostInput::Wii { nunchuk_stick_x, nunchuk_stick_y, wiimote_buttons, .. } => {
            assert_eq!((nunchuk_stick_x, nunchuk_stick_y, wiimote_buttons), (0x80, 0x80, 0));
        }
        _ => panic!("expected a Wii Remote"),
    }
}

#[test]
fn ios_stub_devices_answer_ioctls() {
    assert_eq!(EventHook.ioctl(1, 0, 0, 0, 0), 0);
    assert_eq!(Immediate.ioctl(1, 0, 0, 0, 0), IPC_EINVAL);
}

fn write_vec(m: &mut Mmu, table: u32, idx: u32, ptr: u32) {
    m.phys_write_u32(table + idx * 8, ptr);
}

#[test]
fn bluetooth_answers_hci_commands_in_order() {
    let mut m = Mmu::new();
    let mut bt = Bluetooth::new();
    let table = 0x1000;
    // control request: bmRequestType 0x20, bRequest 0, wLength 3, opcode 0x1009
    write_vec(&mut m, table, 0, 0x2000);
    m.phys_write_u8(0x2000, 0x20);
    write_vec(&mut m, table, 1, 0x2001);
    m.phys_write_u8(0x2001, 0x00);
    write_vec(&mut m, table, 4, 0x2004);
    m.phys_write_u8(0x2004, 3);
    m.phys_write_u8(0x2005, 0);
    write_vec(&mut m, table, 6, 0x2006);
    m.phys_write_u8(0x2006, 0x09);
    m.phys_write_u8(0x2007, 0x10);
    assert_eq!(bt.ioctlv(&mut m, USB_CTRL, 0, 0, table), 0);
    // interrupt read into 0x3000
    let intr = 0x1100;
    write_vec(&mut m, intr, 0, 0x2100);
    m.phys_write_u8(0x2100, 0x81);
    write_vec(&mut m, intr, 2, 0x3000);
    assert_eq!(bt.ioctlv(&mut m, USB_INTR, 0, 0, intr), 12);
    let expected = [0x0E, 10, 0x01, 0x09, 0x10, 0x00, 0x11, 0x22, 0x33, 0x44, 0x55, 0x66];
    for (i, b) in expected.iter().enumerate() {
        assert_eq!(m.phys_read_u8(0x3000 + i as u32), *b);
    }
    assert_eq!(bt.ioctlv(&mut m, USB_INTR, 0, 0, intr), 0);
}

#[test]
fn defaults_of_small_types() {
    assert_eq!(ExecutionMode::default(), ExecutionMode::Jiterpreter);
    let ui = DebuggerUi::default();
    assert!(ui.emulator_state == EmulatorState::Paused);
    assert_eq!(ui.memory_addr_input, "80000000");
    assert_eq!(ui.memory_base, 0x8000_0000);
    let s = BlockStats::default();
    assert_eq!(s.instrs + s.blocks + s.cache_hits + s.cache_misses, 0);
}

#[test]
fn visible_len_skips_colour_codes() {
    assert_eq!(visible_len("abc"), 3);
    assert_eq!(visible_len("\x1b[31mred\x1b[0m"), 3);
    assert_eq!(visible_len("x\x1b[1"), 1);
    assert_eq!(visible_len(""), 0);
}

#[test]
fn xfb_words_read_the_framebuffer() {
    let mut g = Gekko::with_rom(&[]);
    g.vi.top_field_base = 0x0000_1000;
    g.write_u32(0x8000_1000, 0x1080_EB80);
    g.write_u32(0x8000_1004, 0x0102_0304);
    let words = g.xfb_words();
    assert_eq!(words.len(), 640 * 574 / 2);
    assert_eq!(words[0], 0x1080_EB80);
    assert_eq!(words[1], 0x0102_0304);
    assert_eq!(words[2], 0);
}

#[test]
fn dsp_reg_comment_shows_each_named_register_once() {
    let mut regs = Registers::default();
    regs.ar[1] = 0x1234;
    regs.ac0_high = 0x00FF;
    regs.ac0_mid = 0x8000;
    regs.ac0_low = 0x0001;
    let body = dsp_reg_comment_text("lrri $ar1, @$ar1 ; $ac0 $foo $ar1", &regs);
    assert_eq!(body, "; ar1=1234, ac0=FF_8000_0001");
    let shown = dsp_reg_comment("lrri $ar1, @$ar1 ; $ac0 $foo $ar1", &regs);
    assert!(shown == body || shown == format!("\x1b[2m{}\x1b[0m", body));
}

#[test]
fn dsp_reg_comment_formats_pairs_and_product() {
    let mut regs = Registers::default();
    regs.axh[1] = 0xABCD;
    regs.ax[1] = 0x0042;
    regs.product_mid2 = 1;
    regs.product_high = 2;
    regs.product_mid1 = 3;
    regs.product_low = 4;
    regs.config = 0x00FF;
    assert_eq!(
        dsp_reg_comment_text("mulx $ax1.h, $ax1 $prod $cr $ax1", &regs),
        "; ax1.h=ABCD, ax1=ABCD_0042, prod=0001_0002_0003_0004, cr=00FF"
    );
}

#[test]
fn dsp_reg_comment_is_empty_without_registers() {
    let regs = Registers::default();
    assert_eq!(dsp_reg_comment("nop", &regs), "");
    assert_eq!(dsp_reg_comment("jmp $unknown", &regs), "");
}
