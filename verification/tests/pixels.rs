use russsty::colors;
use russsty::framebuffer::FrameBuffer;
use russsty::lines::line_points;
use russsty::mesh::LoadError;
use russsty::texture::{pixels_from_rgba, Texture};

#[test]
fn pack_argb_builds_the_documented_layout() {
    assert_eq!(colors::pack_argb(0xFF, 0xAA, 0xBB, 0xCC), 0xFFAABBCC);
    assert_eq!(colors::pack_argb(0xFF, 0xFF, 0x00, 0x00), 0xFFFF0000);
    assert_eq!(colors::pack_argb(0x00, 0x00, 0x00, 0x00), 0x00000000);
    assert_eq!(colors::pack_argb(0x12, 0x34, 0x56, 0x78), 0x12345678);
}

#[test]
fn channel_getters_invert_packing() {
    let c = colors::pack_argb(0x12, 0x34, 0x56, 0x78);
    assert_eq!(colors::alpha_of(c), 0x12);
    assert_eq!(colors::red_of(c), 0x34);
    assert_eq!(colors::green_of(c), 0x56);
    assert_eq!(colors::blue_of(c), 0x78);
}

#[test]
fn unpack_then_pack_opaque_color_is_identity() {
    let original: u32 = 0xFF4E9A06;
    let repacked = colors::pack_argb(
        255,
        colors::red_of(original),
        colors::green_of(original),
        colors::blue_of(original),
    );
    assert_eq!(repacked, original);
}

#[test]
fn framebuffer_starts_cleared_to_background() {
    let fb = FrameBuffer::new(4, 3);
    for y in 0..3 {
        for x in 0..4 {
            assert_eq!(fb.get_pixel(x, y), Some(colors::BACKGROUND));
            assert_eq!(fb.get_depth(x, y), Some(0));
        }
    }
    assert_eq!(fb.get_pixel(4, 0), None);
    assert_eq!(fb.get_pixel(0, 3), None);
    assert_eq!(fb.get_pixel(-1, 0), None);
}

#[test]
fn set_pixel_writes_in_bounds_and_drops_outside() {
    let mut fb = FrameBuffer::new(8, 8);
    fb.set_pixel(2, 5, 0xFF112233);
    assert_eq!(fb.get_pixel(2, 5), Some(0xFF112233));
    assert_eq!(fb.get_pixel(5, 2), Some(colors::BACKGROUND));
    fb.set_pixel(-1, 0, 0xFFFFFFFF);
    fb.set_pixel(8, 0, 0xFFFFFFFF);
    for y in 0..8 {
        for x in 0..8 {
            if (x, y) != (2, 5) {
                assert_eq!(fb.get_pixel(x, y), Some(colors::BACKGROUND));
            }
        }
    }
}

#[test]
fn depth_test_overrides_submission_order() {
    // A red surface at w = 10 is nearer than a blue one at w = 100: whatever
    // the order the two are submitted in, red must win the pixel.
    let near = (1.0f32 / 10.0).to_bits();
    let far = (1.0f32 / 100.0).to_bits();
    let red = 0xFFFF0000;
    let blue = 0xFF0000FF;

    let mut fb = FrameBuffer::new(800, 600);
    fb.set_pixel_with_depth(400, 300, near, red);
    fb.set_pixel_with_depth(400, 300, far, blue);
    assert_eq!(fb.get_pixel(400, 300), Some(red));

    let mut fb2 = FrameBuffer::new(800, 600);
    fb2.set_pixel_with_depth(400, 300, far, blue);
    fb2.set_pixel_with_depth(400, 300, near, red);
    assert_eq!(fb2.get_pixel(400, 300), Some(red));
}

#[test]
fn depth_test_keeps_maximum_over_any_sequence() {
    let writes: [(f32, u32); 5] =
        [(0.1, 1), (0.5, 2), (0.3, 3), (0.9, 4), (0.9, 5)];
    let mut fb = FrameBuffer::new(2, 2);
    for (d, c) in writes {
        fb.set_pixel_with_depth(1, 1, d.to_bits(), c);
    }
    // The first write carrying the maximum depth (0.9, color 4) wins.
    assert_eq!(fb.get_pixel(1, 1), Some(4));
    assert_eq!(fb.get_depth(1, 1), Some(0.9f32.to_bits()));
    // The other pixels saw no write.
    assert_eq!(fb.get_pixel(0, 0), Some(colors::BACKGROUND));
}

#[test]
fn equal_depth_does_not_overwrite() {
    let mut fb = FrameBuffer::new(2, 2);
    let d = 0.25f32.to_bits();
    fb.set_pixel_with_depth(0, 0, d, 7);
    fb.set_pixel_with_depth(0, 0, d, 8);
    assert_eq!(fb.get_pixel(0, 0), Some(7));
}

#[test]
fn clear_resets_colors_and_keeps_depths() {
    let mut fb = FrameBuffer::new(3, 3);
    fb.set_pixel_with_depth(1, 1, 0.5f32.to_bits(), 9);
    fb.clear(0xFF000000);
    assert_eq!(fb.get_pixel(1, 1), Some(0xFF000000));
    assert_eq!(fb.get_depth(1, 1), Some(0.5f32.to_bits()));
    fb.clear_depth();
    assert_eq!(fb.get_depth(1, 1), Some(0));
}

#[test]
fn draw_rect_fills_exactly_its_rectangle() {
    let mut fb = FrameBuffer::new(10, 10);
    fb.draw_rect(2, 3, 4, 2, 0xFF00FF00);
    for y in 0..10 {
        for x in 0..10 {
            let expected = if (2..6).contains(&x) && (3..5).contains(&y) {
                0xFF00FF00
            } else {
                colors::BACKGROUND
            };
            assert_eq!(fb.get_pixel(x, y), Some(expected));
        }
    }
}

#[test]
fn draw_rect_clips_to_the_buffer() {
    let mut fb = FrameBuffer::new(4, 4);
    fb.draw_rect(3, 3, 4, 4, 0xFFABCDEF);
    assert_eq!(fb.get_pixel(3, 3), Some(0xFFABCDEF));
    assert_eq!(fb.get_pixel(2, 2), Some(colors::BACKGROUND));
}

#[test]
fn draw_grid_paints_multiples_of_spacing() {
    let mut fb = FrameBuffer::new(120, 80);
    fb.draw_grid(50, colors::GRID);
    assert_eq!(fb.get_pixel(0, 0), Some(colors::GRID));
    assert_eq!(fb.get_pixel(50, 17), Some(colors::GRID));
    assert_eq!(fb.get_pixel(100, 33), Some(colors::GRID));
    assert_eq!(fb.get_pixel(33, 50), Some(colors::GRID));
    assert_eq!(fb.get_pixel(33, 17), Some(colors::BACKGROUND));
    assert_eq!(fb.get_pixel(49, 49), Some(colors::BACKGROUND));
}

#[test]
fn resize_replaces_the_buffers() {
    let mut fb = FrameBuffer::new(4, 4);
    fb.set_pixel(1, 1, 0xFF101010);
    fb.resize(6, 2);
    assert_eq!(fb.width(), 6);
    assert_eq!(fb.height(), 2);
    assert_eq!(fb.get_pixel(1, 1), Some(colors::BACKGROUND));
    assert_eq!(fb.get_pixel(0, 2), None);
}

#[test]
fn color_data_exposes_the_row_major_buffer() {
    let mut fb = FrameBuffer::new(3, 2);
    fb.set_pixel(2, 1, 0xFF123456);
    let data = fb.color_data();
    assert_eq!(data.len(), 6);
    assert_eq!(data[1 * 3 + 2], 0xFF123456);
    assert_eq!(data[0], colors::BACKGROUND);
}

#[test]
fn texture_from_pixels_checks_dimensions() {
    let t = Texture::from_pixels(2, 2, vec![1, 2, 3, 4]).unwrap();
    assert_eq!(t.width(), 2);
    assert_eq!(t.height(), 2);
    assert_eq!(Texture::from_pixels(2, 2, vec![1, 2, 3]).unwrap_err(), LoadError::ImageDecode);
    assert_eq!(Texture::from_pixels(0, 2, vec![]).unwrap_err(), LoadError::ImageDecode);
}

#[test]
fn texel_reads_row_major_and_clamps_at_the_edge() {
    let t = Texture::from_pixels(3, 2, vec![10, 11, 12, 20, 21, 22]).unwrap();
    assert_eq!(t.texel(0, 0), 10);
    assert_eq!(t.texel(2, 0), 12);
    assert_eq!(t.texel(1, 1), 21);
    assert_eq!(t.texel_clamped(5, 0), 12);
    assert_eq!(t.texel_clamped(0, 9), 20);
    assert_eq!(t.texel_clamped(9, 9), 22);
}

#[test]
fn rgba_bytes_become_packed_argb_pixels() {
    let bytes = vec![0x11, 0x22, 0x33, 0x44, 0xAA, 0xBB, 0xCC, 0xDD];
    let pixels = pixels_from_rgba(&bytes);
    assert_eq!(pixels, vec![0x44112233, 0xDDAABBCC]);
}

#[test]
fn line_points_walks_from_start_to_end() {
    let pts = line_points(0, 0, 5, 2);
    assert_eq!(pts.first(), Some(&(0, 0)));
    assert_eq!(pts.last(), Some(&(5, 2)));
    assert_eq!(pts.len(), 6);
    for pair in pts.windows(2) {
        let (ax, ay) = pair[0];
        let (bx, by) = pair[1];
        assert!((ax - bx).abs() <= 1 && (ay - by).abs() <= 1);
        assert!((ax, ay) != (bx, by));
        assert!(bx >= ax && by >= ay);
    }
}

#[test]
fn line_points_handles_degenerate_and_reversed_lines() {
    assert_eq!(line_points(3, 4, 3, 4), vec![(3, 4)]);
    let down_left = line_points(4, 4, 0, 0);
    assert_eq!(down_left, vec![(4, 4), (3, 3), (2, 2), (1, 1), (0, 0)]);
    let vertical = line_points(2, 0, 2, 3);
    assert_eq!(vertical, vec![(2, 0), (2, 1), (2, 2), (2, 3)]);
}
