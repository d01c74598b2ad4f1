use rendertext::{pack_rows, stride};

#[test]
fn stride_rounds_up_to_four() {
    assert_eq!(stride(0), 0);
    assert_eq!(stride(1), 4);
    assert_eq!(stride(3), 4);
    assert_eq!(stride(4), 4);
    assert_eq!(stride(5), 8);
    assert_eq!(stride(17), 20);
    assert_eq!(stride(65535), 65536);
}

#[test]
fn stride_is_aligned_and_pads_at_most_three() {
    for w in 0..=u16::MAX {
        let s = stride(w);
        assert_eq!(s % 4, 0);
        assert!(s >= w as u32);
        assert!(s - (w as u32) <= 3);
    }
}

#[test]
fn pack_rows_pads_each_row() {
    let src: Vec<u8> = vec![1, 2, 3, 4, 5, 6];
    let packed = pack_rows(&src, 3, 2, 3);
    assert_eq!(packed, vec![1, 2, 3, 0, 4, 5, 6, 0]);
}

#[test]
fn pack_rows_skips_source_pitch_padding() {
    let src: Vec<u8> = vec![9, 8, 77, 77, 7, 6, 77, 77, 5, 4, 77, 77];
    let packed = pack_rows(&src, 2, 3, 4);
    assert_eq!(packed, vec![9, 8, 0, 0, 7, 6, 0, 0, 5, 4, 0, 0]);
}

#[test]
fn pack_rows_keeps_aligned_rows() {
    let src: Vec<u8> = (0..16).collect();
    let packed = pack_rows(&src, 8, 2, 8);
    assert_eq!(packed, src);
}

#[test]
fn pack_rows_of_empty_bitmap_is_empty() {
    let src: Vec<u8> = Vec::new();
    assert!(pack_rows(&src, 0, 0, 0).is_empty());
    assert!(pack_rows(&src, 5, 0, 5).is_empty());
}

#[test]
fn packed_size_is_stride_times_height() {
    for width in 0u16..12 {
        for rows in 0u16..5 {
            let src = vec![0xffu8; width as usize * rows as usize];
            let packed = pack_rows(&src, width, rows, width as usize);
            assert_eq!(packed.len(), stride(width) as usize * rows as usize);
        }
    }
}
