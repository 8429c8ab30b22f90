use gecko::iso::{FstNode, Header, Iso, GC_MAGIC, WII_MAGIC};

fn put(d: &mut [u8], off: usize, v: u32) {
    d[off..off + 4].copy_from_slice(&v.to_be_bytes());
}

fn image(magic_at: usize, magic: u32) -> Vec<u8> {
    let fst_off = 0x2460usize;
    let mut d = vec![0u8; fst_off + 36 + 8];
    put(&mut d, magic_at, magic);
    put(&mut d, 0x420, 0x1_0000);
    put(&mut d, 0x424, fst_off as u32);
    put(&mut d, 0x428, 44);
    put(&mut d, 0x2450, 0x8120_0000); // apploader entry point
    put(&mut d, 0x2454, 0x1234);
    // root directory with 3 entries, a directory "a", a file "b.bin"
    put(&mut d, fst_off, 0x0100_0000);
    put(&mut d, fst_off + 8, 3);
    put(&mut d, fst_off + 12, 0x0100_0000);
    put(&mut d, fst_off + 20, 3);
    put(&mut d, fst_off + 24, 2);
    put(&mut d, fst_off + 28, 0x1000);
    put(&mut d, fst_off + 32, 0x40);
    d[fst_off + 36..fst_off + 44].copy_from_slice(b"a\0b.bin\0");
    d
}

#[test]
fn gamecube_image_parses() {
    let bytes = image(0x1C, GC_MAGIC);
    let iso = Iso::parse(bytes.clone());
    assert_eq!(iso.header.gc_magic, GC_MAGIC);
    assert_eq!(iso.header.dol_offset, 0x1_0000);
    assert_eq!(iso.header.offset_filesystem, 0x2460);
    assert_eq!(iso.header.filesystem_size, 44);
    assert!(!iso.header.is_wii());
    assert_eq!(iso.apploader.entry_point, 0x8120_0000);
    assert_eq!(iso.apploader.size, 0x1234);
    assert_eq!(iso.header_info.len(), 0x2000);
    assert_eq!(iso.filesystem.entries.len(), 3);
    assert!(iso.filesystem.entries[0].is_dir);
    assert!(iso.filesystem.entries[1].is_dir);
    assert!(!iso.filesystem.entries[2].is_dir);
    assert_eq!(iso.filesystem.entries[2].name_offset, 2);
    assert_eq!(iso.filesystem.entries[2].offset, 0x1000);
    assert_eq!(iso.filesystem.entries[2].length, 0x40);
    assert_eq!(iso.filesystem.names, b"a\0b.bin\0".to_vec());
    assert_eq!(iso.data(), &bytes[..]);
    assert_eq!(iso.data_partition_offset(), 0);
}

#[test]
fn wii_file_offsets_are_scaled() {
    let iso = Iso::parse(image(0x18, WII_MAGIC));
    assert!(iso.header.is_wii());
    assert_eq!(iso.filesystem.entries[2].offset, 0x4000);
    assert_eq!(iso.data_partition_offset(), 0xF80_0000);
}

#[test]
fn file_system_count_is_bounded_by_its_bytes() {
    let mut fst = vec![0u8; 24];
    put(&mut fst, 0, 0x0100_0000);
    put(&mut fst, 8, 100);
    let node = FstNode::parse(&fst, 0);
    assert_eq!(node.entries.len(), 2);
    assert!(node.names.is_empty());
    let h = Header::read_from_bytes(&image(0x1C, GC_MAGIC));
    assert_eq!(h.max_filesystem_size, 0);
}
