use wl_crosshair::buffer::{BufferError, PixelBuffer};
use wl_crosshair::crosshair::{crosshair_pixel, intensity_at};
use wl_crosshair::pixel::{pack_argb, pack_rgba};

fn word_at(buffer: &PixelBuffer, x: u32, y: u32) -> u32 {
    let at = 4 * (y as usize * buffer.width() as usize + x as usize);
    let bytes = buffer.bytes();
    u32::from_le_bytes([bytes[at], bytes[at + 1], bytes[at + 2], bytes[at + 3]])
}

fn expected_intensity(width: u32, height: u32, x: u32, y: u32) -> u8 {
    let distance = if x <= width / 2 {
        x as i64 + y as i64 - height as i64
    } else {
        y as i64 - x as i64
    };
    match distance.abs() {
        0 => 0xff,
        1 => 0x88,
        _ => 0x00,
    }
}

#[test]
fn argb_word_packs_alpha_on_top() {
    assert_eq!(pack_argb(0x12, 0x34, 0x56, 0x78), 0x1234_5678);
    assert_eq!(pack_argb(0xff, 0, 0, 0), 0xff00_0000);
    assert_eq!(pack_argb(0, 0, 0, 0xff), 0x0000_00ff);
}

#[test]
fn rgba_pixel_becomes_argb_word() {
    assert_eq!(pack_rgba((0x34, 0x56, 0x78, 0x12)), 0x1234_5678);
    assert_eq!(pack_rgba((1, 2, 3, 4)), u32::from_be_bytes([4, 1, 2, 3]));
}

#[test]
fn crosshair_ten_by_ten_has_four_hundred_bytes() {
    let buffer = PixelBuffer::crosshair(10, 10).unwrap();
    assert_eq!(buffer.width(), 10);
    assert_eq!(buffer.height(), 10);
    assert_eq!(buffer.bytes().len(), 400);
    assert_eq!(buffer.size(), 400);
    assert_eq!(buffer.stride(), 40);
}

#[test]
fn crosshair_length_is_width_times_height_times_four() {
    for (width, height) in [(0u32, 0u32), (1, 1), (3, 7), (7, 3), (16, 16), (0, 5), (5, 0), (31, 2)] {
        let buffer = PixelBuffer::crosshair(width, height).unwrap();
        assert_eq!(buffer.bytes().len(), (width * height * 4) as usize);
        assert_eq!(buffer.size() as u32, width * height * 4);
        assert_eq!(buffer.stride() as u32, width * 4);
    }
}

#[test]
fn crosshair_bottom_right_corner_is_opaque_white() {
    let buffer = PixelBuffer::crosshair(10, 10).unwrap();
    assert_eq!(intensity_at(10, 10, 9, 9), 0xff);
    assert_eq!(crosshair_pixel(10, 10, 9, 9), 0xffff_ffff);
    assert_eq!(word_at(&buffer, 9, 9), 0xffff_ffff);
}

#[test]
fn crosshair_top_row_is_transparent() {
    let buffer = PixelBuffer::crosshair(10, 10).unwrap();
    for x in 0..10 {
        assert_eq!(intensity_at(10, 10, x, 0), 0x00);
        assert_eq!(word_at(&buffer, x, 0), 0x0000_0000);
    }
}

#[test]
fn crosshair_follows_the_formula_everywhere() {
    for (width, height) in [(10u32, 10u32), (11, 9), (4, 12), (1, 1), (13, 13)] {
        let buffer = PixelBuffer::crosshair(width, height).unwrap();
        for y in 0..height {
            for x in 0..width {
                let v = expected_intensity(width, height, x, y);
                assert_eq!(intensity_at(width, height, x, y), v);
                let at = 4 * (y * width + x) as usize;
                assert_eq!(&buffer.bytes()[at..at + 4], &[v, v, v, v]);
            }
        }
    }
}

#[test]
fn crosshair_strokes_and_fringes() {
    // Left half: the stroke lies on x + y = height.
    assert_eq!(intensity_at(10, 10, 5, 5), 0xff);
    assert_eq!(intensity_at(10, 10, 4, 6), 0xff);
    assert_eq!(intensity_at(10, 10, 4, 5), 0x88);
    assert_eq!(intensity_at(10, 10, 4, 7), 0x88);
    assert_eq!(intensity_at(10, 10, 4, 4), 0x00);
    // Right half: the stroke lies on y = x.
    assert_eq!(intensity_at(10, 10, 6, 6), 0xff);
    assert_eq!(intensity_at(10, 10, 7, 6), 0x88);
    assert_eq!(intensity_at(10, 10, 6, 7), 0x88);
    assert_eq!(intensity_at(10, 10, 8, 6), 0x00);
    // The middle column belongs to the left half.
    assert_eq!(intensity_at(10, 4, 5, 0), 0x88);
    assert_eq!(intensity_at(10, 4, 6, 0), 0x00);
}

#[test]
fn crosshair_too_large_is_refused() {
    assert_eq!(PixelBuffer::crosshair(0x2000_0000, 0).err(), Some(BufferError::TooLarge));
    assert_eq!(PixelBuffer::crosshair(0, 0x8000_0000).err(), Some(BufferError::TooLarge));
    assert_eq!(PixelBuffer::crosshair(0x8000, 0x8000).err(), Some(BufferError::TooLarge));
    assert_eq!(PixelBuffer::crosshair(u32::MAX, u32::MAX).err(), Some(BufferError::TooLarge));
}
