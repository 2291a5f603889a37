use playback_display::surface::{
    draw_album_cover, draw_canvas, draw_title_and_artist, fill_display, CanvasAt, Surface, BLACK,
    WHITE,
};

const W: usize = 240;
const H: usize = 320;

#[test]
fn fill_paints_every_pixel() {
    let mut s = Surface::new(W, H, 0x1234);
    fill_display(&mut s, 0xF800);
    assert_eq!(s.pixels.len(), W * H);
    assert!(s.pixels.iter().all(|p| *p == 0xF800));
}

#[test]
fn missing_album_art_is_black_and_idempotent() {
    let mut s = Surface::new(W, H, WHITE);
    draw_album_cover(&mut s, None);
    let once = s.pixels.clone();
    draw_album_cover(&mut s, None);
    assert_eq!(s.pixels, once);
    for y in 0..H {
        for x in 0..W {
            let expected = if y < 240 { BLACK } else { WHITE };
            assert_eq!(s.pixels[y * W + x], expected);
        }
    }
}

#[test]
fn album_art_reads_big_endian_rows() {
    let mut s = Surface::new(W, H, WHITE);
    // two whole rows and a partial third row
    let mut bytes = Vec::new();
    for i in 0..(2 * 240 + 10) {
        bytes.push((i % 256) as u8);
        bytes.push(0xAB);
    }
    draw_album_cover(&mut s, Some(&bytes));
    assert_eq!(s.pixels[0], 0x00AB);
    assert_eq!(s.pixels[1], 0x01AB);
    assert_eq!(s.pixels[240 + 5], (((245 % 256) as u16) << 8) | 0xAB);
    assert_eq!(s.pixels[2 * 240 + 3], BLACK);
    assert_eq!(s.pixels[239 * 240], BLACK);
    assert_eq!(s.pixels[240 * 240], WHITE);
}

#[test]
fn canvas_is_clipped_and_uses_background() {
    let mut s = Surface::new(4, 3, 9);
    let canvas = CanvasAt {
        left: 2,
        top: 1,
        width: 3,
        height: 2,
        pixels: vec![Some(1), None, Some(3), Some(4), Some(5), Some(6)],
    };
    draw_canvas(&mut s, &canvas, 0);
    assert_eq!(s.pixels, vec![9, 9, 9, 9, 9, 9, 1, 0, 9, 9, 4, 5]);
}

#[test]
fn title_region_is_drawn_below_art() {
    let mut s = Surface::new(W, H, 0x1234);
    draw_title_and_artist(&mut s, "Song".to_string(), "Band".to_string());
    let region = &s.pixels[240 * W..290 * W];
    assert!(region.iter().all(|p| *p == WHITE || *p == BLACK));
    assert!(region.iter().any(|p| *p == WHITE));
    assert!(s.pixels[..240 * W].iter().all(|p| *p == 0x1234));
    assert!(s.pixels[290 * W..].iter().all(|p| *p == 0x1234));
}

#[test]
fn long_titles_draw_the_same_as_their_shortened_form() {
    let mut a = Surface::new(W, H, BLACK);
    let mut b = Surface::new(W, H, BLACK);
    draw_title_and_artist(&mut a, "abcdefghijklmnopqrstuvwxyz0123".to_string(), "x".to_string());
    draw_title_and_artist(&mut b, "abcdefghijklmnopqrstuv..".to_string(), "x".to_string());
    assert_eq!(a.pixels, b.pixels);
}
