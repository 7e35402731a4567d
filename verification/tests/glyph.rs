use icarus::glyph::{glyph_bitmaps, Tag};

#[test]
fn tag_new() {
    assert_eq!(Tag::new(b"cmap"), Tag(0x636d6170));
}

#[test]
fn tag_new_orders_bytes_big_endian() {
    assert_eq!(Tag::new(b"glyf"), Tag(0x676c7966));
    assert_eq!(Tag::new(&[0, 0, 0, 1]), Tag(1));
    assert_eq!(Tag::new(&[0xff, 0, 0, 0]), Tag(0xff00_0000));
}

#[test]
fn tag_text_shows_letters_and_hex() {
    assert_eq!(Tag::new(b"cmap").text(), "cmap (636d6170)");
    assert_eq!(Tag(0x4f532f32).text(), "OS/2 (4f532f32)");
    assert_eq!(Tag(0x00e9_0041).text(), "\u{0}\u{e9}\u{0}A (00e90041)");
}

#[test]
fn glyph_bitmaps_cut_cells_of_a_sheet() {
    let width = 126;
    let height = 54;
    let mut pixels = vec![0u8; width * height];
    // Light the top-left point of glyph 0 and the bottom-right point of glyph 19.
    pixels[1 * width + 1] = 255;
    let (row, col) = (1, 1);
    pixels[(9 * row + 7) * width + 7 * col + 5] = 7;
    let glyphs = glyph_bitmaps(&pixels, width);
    assert_eq!(glyphs.len(), 108);
    assert!(glyphs.iter().all(|g| g.len() == 35));
    assert_eq!(glyphs[0][0], 1);
    assert_eq!(glyphs[0].iter().filter(|&&b| b == 1).count(), 1);
    assert_eq!(glyphs[19][34], 1);
    assert_eq!(glyphs[19].iter().filter(|&&b| b == 1).count(), 1);
    assert_eq!(glyphs.iter().flatten().filter(|&&b| b == 1).count(), 2);
}
