use texture_font::encoding::{char_to_c_code, char_to_utf8, default_glyph_codes};
use texture_font::{NativeCall, RenderMode, TextureFont};

const ATLAS: usize = 0x1000;
const FONT: usize = 0x2000;
const GLYPH: usize = 0x3000;

fn loaded_font() -> TextureFont {
    let mut loader = TextureFont::load("a.ttf", 16.0f32.to_bits(), 4);
    loader.advance(ATLAS);
    loader.advance(FONT);
    loader.advance(0);
    loader.finish().expect("a handle")
}

#[test]
fn glyph_lookup_sends_the_character_as_utf8() {
    let font = loaded_font();
    assert_eq!(font.glyph('A'), NativeCall::GetGlyph { font: FONT, code: vec![0x41, 0] });
    assert_eq!(
        font.glyph('\u{e9}'),
        NativeCall::GetGlyph { font: FONT, code: vec![0xC3, 0xA9, 0] }
    );
    assert_eq!(
        font.glyph('\u{20ac}'),
        NativeCall::GetGlyph { font: FONT, code: vec![0xE2, 0x82, 0xAC, 0] }
    );
}

#[test]
fn glyph_lookup_by_id_passes_the_id_on() {
    let font = loaded_font();
    assert_eq!(
        font.glyph_by_freetype_id(36),
        NativeCall::GetGlyphById { font: FONT, glyph_id: 36 }
    );
    assert_eq!(
        font.glyph_by_freetype_id(u32::MAX),
        NativeCall::GetGlyphById { font: FONT, glyph_id: u32::MAX }
    );
}

#[test]
fn found_glyph_gives_a_view() {
    let font = loaded_font();
    let glyph = font.glyph_view(GLYPH).expect("a view");
    assert_eq!(glyph.native_glyph(), GLYPH);
}

#[test]
fn missing_glyph_is_absent() {
    let font = loaded_font();
    assert!(font.glyph_view(0).is_none());
}

#[test]
fn kerning_lookup_names_the_glyph_and_the_character() {
    let font = loaded_font();
    let glyph = font.glyph_view(GLYPH).expect("a view");
    assert_eq!(glyph.kerning('V'), NativeCall::GetKerning { glyph: GLYPH, code: vec![0x56, 0] });
    assert_eq!(
        glyph.kerning('\u{1f600}'),
        NativeCall::GetKerning { glyph: GLYPH, code: vec![0xF0, 0x9F, 0x98, 0x80, 0] }
    );
}

#[test]
fn char_to_utf8_agrees_with_the_standard_encoding() {
    let samples = [
        '\0', '\u{1}', 'A', '~', '\u{7f}', '\u{80}', '\u{e9}', '\u{7ff}', '\u{800}', '\u{20ac}',
        '\u{d7ff}', '\u{e000}', '\u{ffff}', '\u{10000}', '\u{1f600}', '\u{10ffff}',
    ];
    for c in samples {
        let mut buffer = [0u8; 4];
        let expected = c.encode_utf8(&mut buffer).as_bytes().to_vec();
        assert_eq!(char_to_utf8(c), expected);
    }
}

#[test]
fn char_to_utf8_has_no_zero_byte_but_for_nul() {
    assert_eq!(char_to_utf8('\0'), vec![0]);
    for code in 1u32..0x3000 {
        if let Some(c) = char::from_u32(code) {
            let bytes = char_to_utf8(c);
            assert!(!bytes.is_empty() && bytes.len() <= 4);
            assert!(bytes.iter().all(|b| *b != 0));
        }
    }
}

#[test]
fn char_to_c_code_is_utf8_with_a_terminator() {
    assert_eq!(char_to_c_code('A'), vec![0x41, 0]);
    assert_eq!(char_to_c_code('\u{e9}'), vec![0xC3, 0xA9, 0]);
    assert_eq!(char_to_c_code('\u{20ac}'), vec![0xE2, 0x82, 0xAC, 0]);
    assert_eq!(char_to_c_code('\u{1f600}'), vec![0xF0, 0x9F, 0x98, 0x80, 0]);
    assert_eq!(char_to_c_code('\0'), vec![0, 0]);
}

#[test]
fn default_glyph_codes_are_the_default_characters_in_utf8() {
    let codes = default_glyph_codes();
    assert_eq!(codes.len(), 351);
    assert_eq!(codes[0], 32);
    assert_eq!(codes[1], 33);
    assert_eq!(codes[33], b'A');
    assert_eq!(codes[95], 0x7F);
    assert_eq!(&codes[96..98], &[0xC2, 0x80]);
    assert_eq!(&codes[98..100], &[0xC2, 0x81]);
    assert_eq!(&codes[222..224], &[0xC2, 0xBF]);
    assert_eq!(&codes[224..226], &[0xC3, 0x80]);
    assert_eq!(&codes[348..350], &[0xC3, 0xBE]);
    assert_eq!(codes[350], 0);
    assert!(codes[..350].iter().all(|b| *b != 0));
}

#[test]
fn default_glyph_codes_read_back_as_each_codepoint_once() {
    let codes = default_glyph_codes();
    let text = std::str::from_utf8(&codes[..codes.len() - 1]).expect("valid UTF-8");
    let read: Vec<u32> = text.chars().map(|c| c as u32).collect();
    let expected: Vec<u32> = (32u32..=254).collect();
    assert_eq!(read, expected);
    assert_eq!(read.len(), 223);
}

#[test]
fn render_mode_numbers() {
    assert_eq!(RenderMode::from_raw(0), Some(RenderMode::Normal));
    assert_eq!(RenderMode::from_raw(1), Some(RenderMode::OutlineEdge));
    assert_eq!(RenderMode::from_raw(2), Some(RenderMode::OutlinePositive));
    assert_eq!(RenderMode::from_raw(3), Some(RenderMode::OutlineNegatice));
    assert_eq!(RenderMode::from_raw(4), Some(RenderMode::SignedDistanceField));
    assert_eq!(RenderMode::from_raw(5), None);
    assert_eq!(RenderMode::from_raw(u32::MAX), None);
    for raw in 0u32..5 {
        assert_eq!(RenderMode::from_raw(raw).expect("a mode").raw(), raw);
    }
}
