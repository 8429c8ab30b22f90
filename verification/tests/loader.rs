use gecko::console::Gekko;
use gecko::loader::Section;

#[test]
fn load_image_copies_sections_and_clears_bss() {
    let mut g = Gekko::with_rom(&[]);
    // something already in the BSS range, to see it cleared
    g.write_u8(0x8000_3000, 0xEE);
    g.write_u8(0x8000_3003, 0xEE);
    let data: Vec<u8> = vec![0xAA, 0x01, 0x02, 0x03, 0x04, 0x10, 0x20, 0x30];
    let text = [Section { offset: 1, vaddr: 0x8000_1000, size: 4 }];
    let dat = [Section { offset: 5, vaddr: 0x8000_2000, size: 3 }];
    g.load_image(&data, &text, &dat, 0x8000_3000, 4);
    assert_eq!(g.read_u8(0x8000_1000), 0x01);
    assert_eq!(g.read_u8(0x8000_1003), 0x04);
    assert_eq!(g.read_u8(0x8000_1004), 0x00);
    assert_eq!(g.read_u8(0x8000_2000), 0x10);
    assert_eq!(g.read_u8(0x8000_2002), 0x30);
    assert_eq!(g.read_u8(0x8000_3000), 0x00);
    assert_eq!(g.read_u8(0x8000_3003), 0x00);
    assert_eq!(g.read_u32(0x8000_1000), 0x0102_0304);
}

#[test]
fn later_sections_overwrite_earlier_ones() {
    let mut g = Gekko::with_rom(&[]);
    let data: Vec<u8> = vec![0x11, 0x22, 0x33, 0x44];
    let text = [Section { offset: 0, vaddr: 0x8000_0100, size: 2 }];
    let dat = [Section { offset: 2, vaddr: 0x8000_0101, size: 2 }];
    g.load_image(&data, &text, &dat, 0, 0);
    assert_eq!(g.read_u8(0x8000_0100), 0x11);
    assert_eq!(g.read_u8(0x8000_0101), 0x33);
    assert_eq!(g.read_u8(0x8000_0102), 0x44);
}
