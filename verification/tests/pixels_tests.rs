use asteroids::pixels::pack_rgba_pixels;

#[test]
fn rgba_bytes_become_rgb_words() {
    let pixels = [0x12, 0x34, 0x56, 0xFF, 0xAB, 0xCD, 0xEF, 0x00];
    let mut out = [7u32; 3];
    pack_rgba_pixels(&pixels, &mut out);
    // Alpha is dropped; the pixel without input keeps its value
    assert_eq!(out, [0x123456, 0xABCDEF, 7]);
}

#[test]
fn pixel_packing_stops_at_the_shorter_buffer() {
    let pixels = [1, 2, 3, 4, 5, 6, 7, 8, 9, 10];
    let mut out = [0u32; 1];
    pack_rgba_pixels(&pixels, &mut out);
    assert_eq!(out, [0x010203]);
}
