use std::cell::Cell;

use mtk::colors::Color;
use mtk::ui::widgets::canvas::PixelBuffer;

#[test]
fn test_pixel_buffer_operations() {
    let mut data = vec![0u32; 100]; // 10x10
    let frame_requested = Cell::new(false);
    let mut buf = PixelBuffer::new(10, 10, &mut data, &frame_requested);

    buf.set_pixel(2, 3, 0xFF112233);
    assert_eq!(buf.get_pixel(2, 3), Some(0xFF112233));
    assert_eq!(buf.get_pixel(0, 0), Some(0));
    assert_eq!(buf.get_pixel(10, 10), None);

    buf.fill(0xFFAAAAAA);
    assert_eq!(buf.get_pixel(0, 0), Some(0xFFAAAAAA));
    assert_eq!(buf.get_pixel(9, 9), Some(0xFFAAAAAA));

    buf.clear();
    assert_eq!(buf.get_pixel(5, 5), Some(0));

    buf.fill_rect(2, 2, 4, 4, 0xFFEEFF00);
    assert_eq!(buf.get_pixel(2, 2), Some(0xFFEEFF00));
    assert_eq!(buf.get_pixel(5, 5), Some(0xFFEEFF00));
    assert_eq!(buf.get_pixel(6, 6), Some(0));

    let src = [0xFF010203, 0xFF040506, 0xFF070809, 0xFF0A0B0C];
    buf.blit(&src, 2, 2, 0, 0);
    assert_eq!(buf.get_pixel(0, 0), Some(0xFF010203));
    assert_eq!(buf.get_pixel(1, 0), Some(0xFF040506));
    assert_eq!(buf.get_pixel(0, 1), Some(0xFF070809));
    assert_eq!(buf.get_pixel(1, 1), Some(0xFF0A0B0C));
}

#[test]
fn test_pixel_buffer_color_operations() {
    let mut data = vec![0u32; 100]; // 10x10
    let frame_requested = Cell::new(false);
    let mut buf = PixelBuffer::new(10, 10, &mut data, &frame_requested);

    let red = Color::new(255, 0, 0, 255);
    let blue = Color::new(0, 0, 255, 255);
    let green = Color::new(0, 255, 0, 255);

    buf.fill_with_color(red);
    assert_eq!(buf.get_pixel_by_color(0, 0), Some(red));
    assert_eq!(buf.get_pixel_by_color(9, 9), Some(red));

    buf.set_pixel_with_color(4, 5, blue);
    assert_eq!(buf.get_pixel_by_color(4, 5), Some(blue));
    assert_eq!(buf.get_pixel_by_color(4, 6), Some(red));

    buf.fill_rect_with_color(1, 1, 3, 3, green);
    assert_eq!(buf.get_pixel_by_color(1, 1), Some(green));
    assert_eq!(buf.get_pixel_by_color(3, 3), Some(green));
    assert_eq!(buf.get_pixel_by_color(4, 4), Some(red));

    let color_src = [blue, green, red, blue];
    buf.blit_colors(&color_src, 2, 2, 0, 0);
    assert_eq!(buf.get_pixel_by_color(0, 0), Some(blue));
    assert_eq!(buf.get_pixel_by_color(1, 0), Some(green));
    assert_eq!(buf.get_pixel_by_color(0, 1), Some(red));
    assert_eq!(buf.get_pixel_by_color(1, 1), Some(blue));

    // The colour view holds every pixel of the buffer.
    let colors = buf.as_colors();
    assert_eq!(colors.len(), 100);
    assert_eq!(colors[0], blue);
}
