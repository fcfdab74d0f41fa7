//! Loading fonts from description text and atlas bytes.

use glerminal::GlermError;
use glerminal::font::{DecodedImage, Font, GlyphRecord, ParsedDescription};

/// Encodes a PNG of the given size, color type and bit depth, filled with
/// zero samples.
fn make_png(width: u32, height: u32, color: png::ColorType, depth: png::BitDepth) -> Vec<u8> {
    let mut bytes: Vec<u8> = Vec::new();
    {
        let mut encoder = png::Encoder::new(&mut bytes, width, height);
        encoder.set_color(color);
        encoder.set_depth(depth);
        let mut writer = encoder.write_header().unwrap();
        let samples = match color {
            png::ColorType::Grayscale | png::ColorType::Indexed => 1usize,
            png::ColorType::GrayscaleAlpha => 2,
            png::ColorType::Rgb => 3,
            png::ColorType::Rgba => 4,
        };
        let per_sample = match depth {
            png::BitDepth::Sixteen => 2usize,
            _ => 1,
        };
        let data = vec![0u8; (width as usize) * (height as usize) * samples * per_sample];
        writer.write_image_data(&data).unwrap();
    }
    bytes
}

/// A description equivalent to the bundled Iosevka one in every field the
/// loader reads: the name, the "size line-height" line, 191 glyph records
/// with the known metrics for 'a' (id 97).
fn iosevka_sfl() -> String {
    let mut s = String::new();
    s.push_str("Iosevka\n");
    s.push_str("32 56\n");
    s.push_str("iosevka.png\n");
    s.push_str("191\n");
    for i in 0..191u32 {
        let id = 33 + i;
        if id == 97 {
            // id x y width height xoffset yoffset xadvance
            s.push_str("97 100 200 18 24 2 32 19\n");
        } else {
            s.push_str(&format!("{} {} {} 10 12 1 33 11\n", id, (i % 38) * 10, (i / 38) * 13));
        }
    }
    s
}

fn load_iosevka() -> Font {
    let sfl = iosevka_sfl();
    let atlas = make_png(393, 374, png::ColorType::Rgba, png::BitDepth::Eight);
    Font::load_raw(&sfl, &atlas).unwrap()
}

#[test]
fn test_font_name() {
    assert_eq!(load_iosevka().name, "Iosevka");
}

#[test]
fn test_font_size() {
    let font = load_iosevka();
    assert_eq!(font.width, 393);
    assert_eq!(font.height, 374);
}

#[test]
fn test_font_line_height_and_size() {
    let font = load_iosevka();
    assert_eq!(font.line_height, 56);
    assert_eq!(font.size, 32);
}

#[test]
fn test_font_character_amount() {
    let font = load_iosevka();
    assert_eq!(font.characters.len(), 191);
}

#[test]
fn test_font_single_character_width() {
    let font = load_iosevka();
    assert_eq!(font.get_character('a').unwrap().width, 18);
}

#[test]
fn test_font_single_character_height() {
    let font = load_iosevka();
    assert_eq!(font.get_character('a').unwrap().height, 24);
}

#[test]
fn test_font_single_character_offsets() {
    let font = load_iosevka();
    assert_eq!(font.get_character('a').unwrap().x_off, 2);
    assert_eq!(font.get_character('a').unwrap().y_off, 32);
}

#[test]
fn test_font_single_character_id() {
    let font = load_iosevka();
    assert_eq!(font.get_character('a').unwrap().id, 97);
}

#[test]
fn test_load_raw_twice_identical() {
    let a = load_iosevka();
    let b = load_iosevka();
    assert_eq!(a.name, b.name);
    assert_eq!(a.width, b.width);
    assert_eq!(a.height, b.height);
    assert_eq!(a.line_height, b.line_height);
    assert_eq!(a.size, b.size);
    assert_eq!(a.min_offset_y, b.min_offset_y);
    assert_eq!(a.image_buffer, b.image_buffer);
    assert_eq!(a.characters.len(), b.characters.len());
    for (key, data) in a.characters.iter() {
        assert_eq!(b.characters.get(key), Some(data));
    }
}

#[test]
fn test_atlas_buffer_length() {
    let font = load_iosevka();
    assert_eq!(font.image_buffer.len(), 393 * 374 * 4);
}

#[test]
fn test_uv_bounds() {
    let font = load_iosevka();
    for data in font.characters.values() {
        assert_eq!(data.x1.den, 393);
        assert_eq!(data.x2.den, 393);
        assert_eq!(data.y1.den, 374);
        assert_eq!(data.y2.den, 374);
        assert!(0 <= data.x1.num && data.x1.num <= data.x2.num);
        assert!(data.x2.num <= data.x1.den as i64);
        assert!(0 <= data.y1.num && data.y1.num <= data.y2.num);
        assert!(data.y2.num <= data.y1.den as i64);
    }
}

#[test]
fn test_uv_exact_fractions() {
    let font = load_iosevka();
    let a = font.get_character('a').unwrap();
    assert_eq!(a.x1.num, 100);
    assert_eq!(a.x2.num, 118);
    assert_eq!(a.y1.num, 200);
    assert_eq!(a.y2.num, 224);
}

#[test]
fn test_min_y_offset_is_true_minimum() {
    let font = load_iosevka();
    let minimum = font
        .characters
        .values()
        .map(|c| c.y_off)
        .min()
        .unwrap();
    assert_eq!(font.min_offset_y, minimum);
    assert_eq!(font.min_offset_y, 32);
}

#[test]
fn test_non_rgba_atlas_is_rejected() {
    let sfl = iosevka_sfl();
    let rgb = make_png(393, 374, png::ColorType::Rgb, png::BitDepth::Eight);
    assert!(matches!(Font::load_raw(&sfl, &rgb), Err(GlermError::UnsupportedColorFormat)));
    let gray = make_png(393, 374, png::ColorType::Grayscale, png::BitDepth::Eight);
    assert!(matches!(Font::load_raw(&sfl, &gray), Err(GlermError::UnsupportedColorFormat)));
}

#[test]
fn test_sixteen_bit_atlas_is_corrupt() {
    let sfl = iosevka_sfl();
    let deep = make_png(4, 4, png::ColorType::Rgba, png::BitDepth::Sixteen);
    assert!(matches!(Font::load_raw(&sfl, &deep), Err(GlermError::CorruptAsset)));
}

#[test]
fn test_bad_description_is_format_error() {
    let atlas = make_png(4, 4, png::ColorType::Rgba, png::BitDepth::Eight);
    assert!(matches!(Font::load_raw("not a font", &atlas), Err(GlermError::FormatError)));
    assert!(matches!(
        Font::load_raw("Name\nx y\nimg.png\n0\n", &atlas),
        Err(GlermError::FormatError)
    ));
}

#[test]
fn test_bad_image_is_format_error() {
    let sfl = iosevka_sfl();
    assert!(matches!(
        Font::load_raw(&sfl, &[1, 2, 3, 4]),
        Err(GlermError::FormatError)
    ));
}

#[test]
fn test_get_character_missing() {
    let font = load_iosevka();
    // id 32 (space) is not among the generated records, which start at 33.
    assert_eq!(font.get_character(' '), Err(GlermError::CharacterNotFound));
}

#[test]
fn test_from_parts_byte_truncation_collision() {
    // Ids 97 and 353 collapse onto the same byte key; the record listed
    // last wins.
    let glyphs = vec![
        GlyphRecord { id: 97, x: 0, y: 0, width: 1, height: 1, xoffset: 0, yoffset: 5 },
        GlyphRecord { id: 353, x: 2, y: 2, width: 3, height: 3, xoffset: 1, yoffset: 7 },
    ];
    let desc = ParsedDescription {
        name: String::from("tiny"),
        line_height: 8,
        size: 6,
        glyphs,
    };
    let image = DecodedImage {
        width: 8,
        height: 8,
        channels: 4,
        pixels: vec![0u8; 8 * 8 * 4],
    };
    let font = Font::from_parts(desc, image).unwrap();
    assert_eq!(font.characters.len(), 1);
    let a = font.get_character('a').unwrap();
    assert_eq!(a.id, 353);
    assert_eq!(a.width, 3);
    assert_eq!(font.min_offset_y, 5);
}

#[test]
fn test_from_parts_empty_description() {
    let desc = ParsedDescription {
        name: String::from("empty"),
        line_height: 1,
        size: 1,
        glyphs: Vec::new(),
    };
    let image = DecodedImage { width: 2, height: 2, channels: 4, pixels: vec![0u8; 16] };
    let font = Font::from_parts(desc, image).unwrap();
    assert_eq!(font.characters.len(), 0);
    assert_eq!(font.min_offset_y, 100000);
}

#[test]
fn test_from_parts_length_mismatch() {
    let desc = ParsedDescription {
        name: String::from("bad"),
        line_height: 1,
        size: 1,
        glyphs: Vec::new(),
    };
    let image = DecodedImage { width: 2, height: 2, channels: 4, pixels: vec![0u8; 15] };
    assert!(matches!(Font::from_parts(desc, image), Err(GlermError::CorruptAsset)));
}
