use gecko::kitty::{kitty_payload, rgba_from_pixels, split_chunks, KITTY_CHUNK};

#[test]
fn rgba_bytes_of_packed_pixels() {
    assert_eq!(
        rgba_from_pixels(&[0x0012_3456, 0x00FF_0080]),
        vec![0x12, 0x34, 0x56, 0xFF, 0xFF, 0x00, 0x80, 0xFF]
    );
}

#[test]
fn kitty_payload_single_pixel() {
    assert_eq!(kitty_payload(&[0]), vec!["AAAA/w==".to_string()]);
}

#[test]
fn kitty_payload_is_cut_into_pieces() {
    let pixels = vec![0x00FF_FFFFu32; 1024];
    let chunks = kitty_payload(&pixels);
    assert_eq!(chunks.len(), 2);
    assert_eq!(chunks[0].len(), KITTY_CHUNK);
    assert_eq!(chunks[1].len(), 5464 - KITTY_CHUNK);
    assert!(chunks[0].starts_with("////"));
    assert!(chunks[1].ends_with("/w=="));
}

#[test]
fn split_chunks_edges() {
    assert!(split_chunks("").is_empty());
    let exact = "a".repeat(KITTY_CHUNK);
    assert_eq!(split_chunks(&exact), vec![exact.clone()]);
    let longer = "b".repeat(KITTY_CHUNK + 1);
    let pieces = split_chunks(&longer);
    assert_eq!(pieces.len(), 2);
    assert_eq!(pieces[1], "b");
}
