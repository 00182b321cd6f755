use std::cell::Cell;

use mtk::colors::Color;
use mtk::ui::widgets::canvas::PixelBuffer;

#[test]
fn color_words_round_trip() {
    for c in [Color::new(1, 2, 3, 4), Color::new(255, 0, 128, 255), Color::new(0, 0, 0, 0)] {
        assert_eq!(Color::from_rgba_u32(c.to_rgba_u32()), c);
    }
    assert_eq!(Color::new(0x11, 0x22, 0x33, 0x44).to_rgba_u32(), u32::from_ne_bytes([0x11, 0x22, 0x33, 0x44]));
    assert_eq!(PixelBuffer::rgba(1, 2, 3, 4), u32::from_ne_bytes([1, 2, 3, 4]));
    assert_eq!(PixelBuffer::rgb(9, 8, 7), u32::from_ne_bytes([9, 8, 7, 255]));
}

#[test]
fn pixel_writes_are_local_and_clipped() {
    let mut data = vec![0u32; 12];
    let flag = Cell::new(false);
    let mut buf = PixelBuffer::new(4, 3, &mut data, &flag);
    buf.set_pixel_with_color(1, 2, Color::new(5, 6, 7, 8));
    assert_eq!(buf.get_pixel_by_color(1, 2), Some(Color::new(5, 6, 7, 8)));
    assert_eq!(buf.get_pixel_color(2, 1), Some(Color::new(0, 0, 0, 0)));
    buf.set_pixel(9, 0, 1);
    buf.set_pixel(0, 9, 1);
    assert_eq!(buf.get_pixel(0, 0), Some(0));
    assert_eq!(buf.get_pixel_by_color(4, 0), None);
    buf.fill_rect(-2, -1, 4, 3, 0xAB);
    assert_eq!(buf.get_pixel(0, 0), Some(0xAB));
    assert_eq!(buf.get_pixel(1, 1), Some(0xAB));
    assert_eq!(buf.get_pixel(2, 0), Some(0));
    assert_eq!(buf.get_pixel(0, 2), Some(0));
    buf.fill_color(Color::new(1, 1, 1, 1));
    assert_eq!(buf.get_pixel_color(3, 2), Some(Color::new(1, 1, 1, 1)));
    buf.blit(&[5, 6, 7, 8], 2, 2, 3, 2);
    assert_eq!(buf.get_pixel(3, 2), Some(5));
    assert_eq!(buf.get_pixel(2, 2), Some(Color::new(1, 1, 1, 1).to_rgba_u32()));
    buf.request_frame();
    drop(buf);
    assert!(flag.get());
}

#[test]
fn pixel_bytes_views() {
    let mut data = vec![PixelBuffer::rgba(1, 2, 3, 4), PixelBuffer::rgba(5, 6, 7, 8)];
    let flag = Cell::new(false);
    let mut buf = PixelBuffer::new(2, 1, &mut data, &flag);
    assert_eq!(buf.as_bytes(), &[1, 2, 3, 4, 5, 6, 7, 8]);
    buf.as_bytes_mut()[4] = 9;
    assert_eq!(buf.get_pixel_by_color(1, 0), Some(Color::new(9, 6, 7, 8)));
    let words = [PixelBuffer::rgba(10, 11, 12, 13)];
    let bytes: &[u8] = bytes_of_words(&words);
    assert!(buf.blit_bytes(bytes, 1, 1, 0, 0));
    assert_eq!(buf.get_pixel_color(0, 0), Some(Color::new(10, 11, 12, 13)));
    assert!(!buf.blit_bytes(&bytes[..3], 1, 1, 1, 0));
    assert_eq!(buf.get_pixel_color(1, 0), Some(Color::new(9, 6, 7, 8)));
    buf.blit_colors(&[Color::new(0, 0, 0, 1)], 1, 1, 1, 0);
    assert_eq!(buf.get_pixel_color(1, 0), Some(Color::new(0, 0, 0, 1)));
}

fn bytes_of_words(words: &[u32; 1]) -> &[u8] {
    bytemuck::cast_slice(words)
}

#[test]
fn unaligned_pixel_bytes_are_copied() {
    let mut data = vec![0u32; 2];
    let flag = Cell::new(false);
    let mut buf = PixelBuffer::new(2, 1, &mut data, &flag);
    // Storage of words, so that an offset of one byte is never aligned for a word.
    let store = [0u32; 3];
    let mut raw: Vec<u8> = bytemuck::cast_slice::<u32, u8>(&store).to_vec();
    raw.truncate(9);
    raw[1..9].copy_from_slice(&[1, 2, 3, 4, 5, 6, 7, 8]);
    let unaligned = &raw[1..9];
    assert!(buf.blit_bytes(unaligned, 2, 1, 0, 0));
    assert_eq!(buf.get_pixel_color(0, 0), Some(Color::new(1, 2, 3, 4)));
    assert_eq!(buf.get_pixel_color(1, 0), Some(Color::new(5, 6, 7, 8)));
    assert!(!buf.blit_bytes(&raw[1..8], 1, 1, 0, 0));
}
