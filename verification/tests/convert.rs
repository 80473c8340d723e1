use srs::convert::argb_to_i420;

/// A packed frame of one solid color, bytes in blue-green-red-alpha order.
fn solid_frame(width: usize, height: usize, b: u8, g: u8, r: u8) -> Vec<u8> {
    let mut v = Vec::with_capacity(4 * width * height);
    for _ in 0..width * height {
        v.push(b);
        v.push(g);
        v.push(r);
        v.push(255);
    }
    v
}

fn planar_len(w: usize, h: usize) -> usize {
    w * h + 2 * ((w / 2) * (h / 2))
}

#[test]
fn converted_length_matches_planar_layout() {
    for &(w, h) in &[(2usize, 2usize), (6, 4), (64, 64), (2, 8)] {
        let src = solid_frame(w, h, 10, 20, 30);
        let mut dest = Vec::new();
        argb_to_i420(w, h, &src, &mut dest);
        assert_eq!(dest.len(), planar_len(w, h));
    }
}

#[test]
fn conversion_is_deterministic() {
    let src = solid_frame(8, 6, 12, 200, 99);
    let mut first = Vec::new();
    let mut second = Vec::new();
    argb_to_i420(8, 6, &src, &mut first);
    argb_to_i420(8, 6, &src, &mut second);
    assert_eq!(first, second);
}

#[test]
fn white_frame_values() {
    let src = solid_frame(4, 4, 255, 255, 255);
    let mut dest = Vec::new();
    argb_to_i420(4, 4, &src, &mut dest);
    // Luma plane: broadcast-range white.
    for i in 0..16 {
        assert_eq!(dest[i], 235);
    }
    // Both chroma planes are neutral for gray colors.
    for i in 16..24 {
        assert_eq!(dest[i], 128);
    }
}

#[test]
fn black_frame_values() {
    let src = solid_frame(4, 4, 0, 0, 0);
    let mut dest = Vec::new();
    argb_to_i420(4, 4, &src, &mut dest);
    for i in 0..16 {
        assert_eq!(dest[i], 16);
    }
    for i in 16..24 {
        assert_eq!(dest[i], 128);
    }
}

#[test]
fn red_frame_values() {
    let src = solid_frame(2, 2, 0, 0, 255);
    let mut dest = Vec::new();
    argb_to_i420(2, 2, &src, &mut dest);
    assert_eq!(dest.len(), 6);
    for i in 0..4 {
        assert_eq!(dest[i], 82);
    }
    assert_eq!(dest[4], 90); // blue-difference chroma
    assert_eq!(dest[5], 240); // red-difference chroma
}

#[test]
fn stride_padding_is_skipped() {
    // Two rows of two pixels, but each row padded to 16 bytes; the padding
    // holds junk that must not influence the output.
    let mut padded = Vec::new();
    for _ in 0..2 {
        for _ in 0..2 {
            padded.extend_from_slice(&[0, 0, 255, 255]); // red pixel
        }
        padded.extend_from_slice(&[7; 8]); // row padding
    }
    let mut from_padded = Vec::new();
    argb_to_i420(2, 2, &padded, &mut from_padded);

    let tight = solid_frame(2, 2, 0, 0, 255);
    let mut from_tight = Vec::new();
    argb_to_i420(2, 2, &tight, &mut from_tight);

    assert_eq!(from_padded, from_tight);
}

#[test]
fn output_buffer_is_reused_and_overwritten() {
    let mut dest = Vec::new();
    let white = solid_frame(4, 4, 255, 255, 255);
    argb_to_i420(4, 4, &white, &mut dest);
    let black = solid_frame(4, 4, 0, 0, 0);
    argb_to_i420(4, 4, &black, &mut dest);
    assert_eq!(dest.len(), planar_len(4, 4));
    assert_eq!(dest[0], 16);
}
