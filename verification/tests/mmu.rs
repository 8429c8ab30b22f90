use gecko::mmu::Mmu;

#[test]
fn ram_phys_read_write_roundtrip() {
    let mut mmu = Mmu::new();
    mmu.phys_write_u32(0x100, 0xDEAD_BEEF);
    assert_eq!(mmu.phys_read_u32(0x100), 0xDEAD_BEEF);
    assert_eq!(mmu.phys_read_u16(0x100), 0xDEAD);
    assert_eq!(mmu.phys_read_u8(0x100), 0xDE);
}

#[test]
fn cached_virtual_maps_to_physical() {
    let mut mmu = Mmu::new();
    mmu.virt_write_u32(0x8000_0100, 0x1234_5678);
    assert_eq!(mmu.phys_read_u32(0x100), 0x1234_5678);
}

#[test]
fn uncached_virtual_maps_to_physical() {
    let mut mmu = Mmu::new();
    mmu.virt_write_u32(0xC000_0100, 0xAAAA_BBBB);
    assert_eq!(mmu.phys_read_u32(0x100), 0xAAAA_BBBB);
}

#[test]
fn efb_virtual_maps_to_efb_storage() {
    let mut mmu = Mmu::new();
    // 0xC8000000 virtual -> phys 0x08000000 (EFB)
    mmu.virt_write_u32(0xC800_0000, 0xFB_FB_FB_FB);
    assert_eq!(mmu.phys_read_u32(0x0800_0000), 0xFB_FB_FB_FB);
    // Confirm it did NOT touch RAM
    assert_eq!(mmu.phys_read_u32(0x0), 0);
}

#[test]
fn efb_address_does_not_alias_ram() {
    let mut mmu = Mmu::new();
    mmu.phys_write_u32(0x0, 0x1111_1111);
    mmu.phys_write_u32(0x0800_0000, 0x2222_2222);
    assert_eq!(mmu.phys_read_u32(0x0), 0x1111_1111);
    assert_eq!(mmu.phys_read_u32(0x0800_0000), 0x2222_2222);
}

#[test]
fn phys_slice_returns_correct_data() {
    let mut mmu = Mmu::new();
    mmu.phys_write_u32(0x200, 0xCAFE_BABE);
    let slice = mmu.phys_slice(0x200, 4);
    assert_eq!(slice, &[0xCA, 0xFE, 0xBA, 0xBE]);
}

#[test]
fn u16_and_u8_writes_are_big_endian() {
    let mut mmu = Mmu::new();
    mmu.phys_write_u16(0x10, 0xBEEF);
    mmu.phys_write_u8(0x12, 0x42);
    assert_eq!(mmu.phys_read_u32(0x10), 0xBEEF_4200);
    assert_eq!(mmu.virt_read_u16(0x8000_0010), 0xBEEF);
    assert_eq!(mmu.virt_read_u8(0xC000_0012), 0x42);
    assert_eq!(gecko::mmu::virt_to_phys(0xC800_1234), 0x0800_1234);
}
