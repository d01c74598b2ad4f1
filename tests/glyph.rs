use rendertext::{glyph_from_bitmap, pixels_from_26_6, Glyph, GlyphError, GlyphInfo};

#[test]
fn fixed_point_truncates_toward_zero() {
    assert_eq!(pixels_from_26_6(0), 0);
    assert_eq!(pixels_from_26_6(63), 0);
    assert_eq!(pixels_from_26_6(64), 1);
    assert_eq!(pixels_from_26_6(1280), 20);
    assert_eq!(pixels_from_26_6(1300), 20);
    assert_eq!(pixels_from_26_6(-63), 0);
    assert_eq!(pixels_from_26_6(-65), -1);
    assert_eq!(pixels_from_26_6(-128), -2);
    assert_eq!(pixels_from_26_6(i64::MIN), i64::MIN / 64);
    assert_eq!(pixels_from_26_6(i64::MAX), i64::MAX / 64);
}

#[test]
fn glyph_from_bitmap_builds_metrics_and_rows() {
    let buffer: Vec<u8> = vec![10, 20, 30, 40, 50, 60];
    let g = glyph_from_bitmap(1, 5, 3, 2, 3, &buffer, 1300, 0).unwrap();
    assert_eq!(
        g.info,
        GlyphInfo { x: -1, y: 5, width: 3, height: 2, x_off: 20, y_off: 0 }
    );
    assert_eq!(g.data, vec![10, 20, 30, 0, 40, 50, 60, 0]);
}

#[test]
fn glyph_from_bitmap_negates_left_bearing() {
    let buffer: Vec<u8> = vec![];
    let g = glyph_from_bitmap(-2, 0, 0, 0, 0, &buffer, -640, 128).unwrap();
    assert_eq!(g.info.x, 2);
    assert_eq!(g.info.x_off, -10);
    assert_eq!(g.info.y_off, 2);
    assert!(g.data.is_empty());
}

#[test]
fn glyph_from_bitmap_keeps_metrics_at_field_limits() {
    let buffer: Vec<u8> = vec![];
    let g = glyph_from_bitmap(32768, 32767, 0, 0, 0, &buffer, 64 * 32767 + 63, -64 * 32768).unwrap();
    assert_eq!(g.info.x, -32768);
    assert_eq!(g.info.y, 32767);
    assert_eq!(g.info.x_off, 32767);
    assert_eq!(g.info.y_off, -32768);
}

#[test]
fn glyph_from_bitmap_rejects_origin_out_of_range() {
    let buffer: Vec<u8> = vec![];
    let left = glyph_from_bitmap(-32768, 0, 0, 0, 0, &buffer, 0, 0);
    assert_eq!(left.unwrap_err(), GlyphError::MalformedBitmap);
    let top = glyph_from_bitmap(0, 70000, 0, 0, 0, &buffer, 0, 0);
    assert_eq!(top.unwrap_err(), GlyphError::MalformedBitmap);
}

#[test]
fn glyph_from_bitmap_rejects_advance_out_of_range() {
    let buffer: Vec<u8> = vec![];
    let x = glyph_from_bitmap(0, 0, 0, 0, 0, &buffer, 64 * 32768, 0);
    assert_eq!(x.unwrap_err(), GlyphError::MalformedBitmap);
    let y = glyph_from_bitmap(0, 0, 0, 0, 0, &buffer, 0, -64 * 32769);
    assert_eq!(y.unwrap_err(), GlyphError::MalformedBitmap);
}

#[test]
fn glyph_from_bitmap_rejects_negative_width() {
    let buffer: Vec<u8> = vec![0; 16];
    let r = glyph_from_bitmap(0, 0, -1, 2, 4, &buffer, 0, 0);
    assert_eq!(r.unwrap_err(), GlyphError::MalformedBitmap);
}

#[test]
fn glyph_from_bitmap_rejects_negative_rows() {
    let buffer: Vec<u8> = vec![0; 16];
    let r = glyph_from_bitmap(0, 0, 2, -1, 4, &buffer, 0, 0);
    assert_eq!(r.unwrap_err(), GlyphError::MalformedBitmap);
}

#[test]
fn glyph_from_bitmap_rejects_pitch_below_width() {
    let buffer: Vec<u8> = vec![0; 16];
    let r = glyph_from_bitmap(0, 0, 4, 2, 3, &buffer, 0, 0);
    assert_eq!(r.unwrap_err(), GlyphError::MalformedBitmap);
}

#[test]
fn glyph_from_bitmap_rejects_short_buffer() {
    let buffer: Vec<u8> = vec![0; 7];
    let r = glyph_from_bitmap(0, 0, 4, 2, 4, &buffer, 0, 0);
    assert_eq!(r.unwrap_err(), GlyphError::MalformedBitmap);
}

#[test]
fn glyph_from_bitmap_rejects_oversized_width() {
    let buffer: Vec<u8> = vec![0; 70000];
    let r = glyph_from_bitmap(0, 0, 65536, 1, 65536, &buffer, 0, 0);
    assert_eq!(r.unwrap_err(), GlyphError::MalformedBitmap);
}

#[test]
fn same_report_gives_identical_glyphs() {
    let buffer: Vec<u8> = (0..30).collect();
    let a = glyph_from_bitmap(-1, 7, 5, 6, 5, &buffer, 900, 0).unwrap();
    let b = glyph_from_bitmap(-1, 7, 5, 6, 5, &buffer, 900, 0).unwrap();
    assert_eq!(a.info, b.info);
    assert_eq!(a.data, b.data);
    assert_eq!(a.data.len(), 8 * 6);
}

#[test]
fn empty_glyph_has_zero_metrics() {
    let g = Glyph::empty();
    assert_eq!(
        g.info,
        GlyphInfo { x: 0, y: 0, width: 0, height: 0, x_off: 0, y_off: 0 }
    );
    assert!(g.data.is_empty());
}
