use playback_display::codec::{convert_vec_rgb888_to_rgb565, rgb888_to_rgb565};

#[test]
fn white_pixel_sets_all_bits() {
    assert_eq!(convert_vec_rgb888_to_rgb565(&vec![0xFF, 0xFF, 0xFF]), vec![0xFF, 0xFF]);
}

#[test]
fn black_pixel_clears_all_bits() {
    assert_eq!(convert_vec_rgb888_to_rgb565(&vec![0, 0, 0]), vec![0x00, 0x00]);
}

#[test]
fn packs_channels_in_565_order() {
    assert_eq!(rgb888_to_rgb565(0x12, 0x34, 0x56), 0x11AA);
    assert_eq!(rgb888_to_rgb565(0xFF, 0, 0), 0xF800);
    assert_eq!(rgb888_to_rgb565(0, 0xFF, 0), 0x07E0);
    assert_eq!(rgb888_to_rgb565(0, 0, 0xFF), 0x001F);
}

#[test]
fn output_is_big_endian() {
    assert_eq!(
        convert_vec_rgb888_to_rgb565(&vec![0x12, 0x34, 0x56, 0xFF, 0, 0]),
        vec![0x11, 0xAA, 0xF8, 0x00]
    );
}

#[test]
fn length_is_two_thirds_of_whole_triples() {
    for n in 0..5usize {
        let whole = vec![7u8; 3 * n];
        assert_eq!(convert_vec_rgb888_to_rgb565(&whole).len(), 2 * n);
        for k in 1..3usize {
            let ragged = vec![7u8; 3 * n + k];
            assert_eq!(convert_vec_rgb888_to_rgb565(&ragged).len(), 2 * n);
        }
    }
}

#[test]
fn trailing_partial_triple_is_ignored() {
    assert_eq!(convert_vec_rgb888_to_rgb565(&vec![0xFF, 0xFF, 0xFF, 0xFF, 0xFF]), vec![0xFF, 0xFF]);
    assert_eq!(convert_vec_rgb888_to_rgb565(&vec![]), Vec::<u8>::new());
}
