use texture_font::{FontLoader, LoadStage, NativeCall, TextureFont};

const ATLAS: usize = 0x1000;
const FONT: usize = 0x2000;

/// A stand-in for the native library: it answers every call with a fixed
/// address, null where told to fail, and records what it was asked.
struct FakeNative {
    atlas_reply: usize,
    font_reply: usize,
    calls: Vec<NativeCall>,
}

impl FakeNative {
    fn new(atlas_reply: usize, font_reply: usize) -> FakeNative {
        FakeNative { atlas_reply, font_reply, calls: Vec::new() }
    }

    fn perform(&mut self, call: NativeCall) -> usize {
        let reply = match &call {
            NativeCall::NewAtlas { .. } => self.atlas_reply,
            NativeCall::NewFontFromFile { .. } => self.font_reply,
            NativeCall::NewFontFromMemory { .. } => self.font_reply,
            _ => 0,
        };
        self.calls.push(call);
        reply
    }

    fn run(&mut self, mut loader: FontLoader) -> Option<TextureFont> {
        let mut steps = 0;
        while let Some(call) = loader.pending() {
            let reply = self.perform(call);
            loader.advance(reply);
            steps += 1;
            assert!(steps <= 3);
        }
        loader.finish().ok()
    }

    fn deletions_of_atlas(&self, atlas: usize) -> usize {
        self.calls.iter().filter(|c| **c == NativeCall::DeleteAtlas { atlas }).count()
    }

    fn deletions_of_font(&self, font: usize) -> usize {
        self.calls.iter().filter(|c| **c == NativeCall::DeleteFont { font }).count()
    }
}

fn size(points: f32) -> u32 {
    points.to_bits()
}

fn default_codes() -> Vec<u8> {
    let text: String = (32u8..=254).map(char::from).collect();
    let mut codes = text.into_bytes();
    codes.push(0);
    codes
}

#[test]
fn load_from_path_succeeds_for_each_supported_depth() {
    for depth in [1usize, 3, 4] {
        let mut native = FakeNative::new(ATLAS, FONT);
        let font = native.run(TextureFont::load("fonts/regular.ttf", size(16.0), depth));
        let font = font.expect("a handle");
        assert_eq!(font.native_font(), FONT);
        assert_eq!(font.native_atlas(), ATLAS);
        assert_eq!(
            native.calls,
            vec![
                NativeCall::NewAtlas { width: 512, height: 512, depth },
                NativeCall::NewFontFromFile {
                    atlas: ATLAS,
                    pt_size: size(16.0),
                    c_path: b"fonts/regular.ttf\0".to_vec(),
                },
                NativeCall::LoadGlyphs { font: FONT, codes: default_codes() },
            ]
        );
    }
}

#[test]
fn load_from_missing_path_fails_and_deletes_the_atlas() {
    let mut native = FakeNative::new(ATLAS, 0);
    let font = native.run(TextureFont::load("no/such/file.ttf", size(12.0), 4));
    assert!(font.is_none());
    assert_eq!(
        native.calls,
        vec![
            NativeCall::NewAtlas { width: 512, height: 512, depth: 4 },
            NativeCall::NewFontFromFile {
                atlas: ATLAS,
                pt_size: size(12.0),
                c_path: b"no/such/file.ttf\0".to_vec(),
            },
            NativeCall::DeleteAtlas { atlas: ATLAS },
        ]
    );
}

#[test]
fn load_fails_when_the_atlas_cannot_be_created() {
    let mut native = FakeNative::new(0, FONT);
    let font = native.run(TextureFont::load("fonts/regular.ttf", size(12.0), 1));
    assert!(font.is_none());
    assert_eq!(native.calls, vec![NativeCall::NewAtlas { width: 512, height: 512, depth: 1 }]);
}

#[test]
fn load_steps_through_the_stages() {
    let mut loader = TextureFont::load("a.ttf", size(10.0), 3);
    assert_eq!(loader.current_stage(), LoadStage::NeedAtlas);
    loader.advance(ATLAS);
    assert_eq!(loader.current_stage(), LoadStage::NeedFont { atlas: ATLAS });
    loader.advance(FONT);
    assert_eq!(loader.current_stage(), LoadStage::NeedGlyphs { atlas: ATLAS, font: FONT });
    loader.advance(7);
    assert_eq!(loader.current_stage(), LoadStage::Loaded { atlas: ATLAS, font: FONT });
    assert!(loader.pending().is_none());
    loader.advance(0);
    assert_eq!(loader.current_stage(), LoadStage::Loaded { atlas: ATLAS, font: FONT });
}

#[test]
fn failed_load_stays_failed() {
    let mut loader = TextureFont::load("a.ttf", size(10.0), 3);
    loader.advance(ATLAS);
    loader.advance(0);
    assert_eq!(loader.current_stage(), LoadStage::Unwinding { atlas: ATLAS });
    assert_eq!(loader.pending(), Some(NativeCall::DeleteAtlas { atlas: ATLAS }));
    loader.advance(0);
    assert_eq!(loader.current_stage(), LoadStage::Failed);
    loader.advance(FONT);
    assert_eq!(loader.current_stage(), LoadStage::Failed);
    assert!(loader.pending().is_none());
    let loader = loader.finish().expect_err("no handle");
    assert_eq!(loader.current_stage(), LoadStage::Failed);
}

#[test]
fn unfinished_load_gives_no_handle_and_can_go_on() {
    let mut loader = TextureFont::load("a.ttf", size(10.0), 3);
    loader.advance(ATLAS);
    loader.advance(FONT);
    let mut loader = loader.finish().expect_err("no handle yet");
    assert_eq!(loader.current_stage(), LoadStage::NeedGlyphs { atlas: ATLAS, font: FONT });
    assert_eq!(
        loader.pending(),
        Some(NativeCall::LoadGlyphs { font: FONT, codes: default_codes() })
    );
    loader.advance(0);
    let font = loader.finish().expect("a handle");
    assert_eq!(font.native_font(), FONT);
    assert_eq!(font.native_atlas(), ATLAS);
}

#[test]
fn unsupported_depth_is_refused_without_a_native_call() {
    for depth in [0usize, 2, 5, 8, usize::MAX] {
        let mut native = FakeNative::new(ATLAS, FONT);
        let loader = TextureFont::load("a.ttf", size(10.0), depth);
        assert_eq!(loader.current_stage(), LoadStage::Rejected);
        assert!(native.run(loader).is_none());
        assert!(native.calls.is_empty());
    }
}

#[test]
fn point_size_must_be_above_zero() {
    for bad in [0.0f32, -0.0, -1.0, f32::NAN, -f32::NAN, f32::NEG_INFINITY] {
        let loader = TextureFont::load("a.ttf", size(bad), 4);
        assert_eq!(loader.current_stage(), LoadStage::Rejected);
        let loader = TextureFont::load_from_memory(vec![1, 2, 3], size(bad), 4);
        assert_eq!(loader.current_stage(), LoadStage::Rejected);
    }
    for good in [f32::MIN_POSITIVE, 0.5f32, 16.0, 72.0, f32::MAX, f32::INFINITY] {
        let loader = TextureFont::load("a.ttf", size(good), 4);
        assert_eq!(loader.current_stage(), LoadStage::NeedAtlas);
    }
    let loader = TextureFont::load("a.ttf", 1, 4);
    assert_eq!(loader.current_stage(), LoadStage::NeedAtlas);
    let loader = TextureFont::load("a.ttf", 0x7F80_0001, 4);
    assert_eq!(loader.current_stage(), LoadStage::Rejected);
}

#[test]
fn path_with_nul_is_refused() {
    let loader = TextureFont::load("fonts/\0regular.ttf", size(16.0), 4);
    assert_eq!(loader.current_stage(), LoadStage::Rejected);
    assert!(loader.pending().is_none());
    let loader = TextureFont::load("", size(16.0), 4);
    assert_eq!(loader.current_stage(), LoadStage::NeedAtlas);
}

#[test]
fn path_is_sent_as_utf8_with_a_closing_nul() {
    let mut loader = TextureFont::load("sch\u{f6}n.ttf", size(16.0), 4);
    loader.advance(ATLAS);
    assert_eq!(
        loader.pending(),
        Some(NativeCall::NewFontFromFile {
            atlas: ATLAS,
            pt_size: 0x4180_0000,
            c_path: vec![b's', b'c', b'h', 0xC3, 0xB6, b'n', b'.', b't', b't', b'f', 0],
        })
    );
    assert!(loader.font_data().is_none());
}

#[test]
fn load_from_empty_buffer_fails_without_a_native_call() {
    let mut native = FakeNative::new(ATLAS, FONT);
    let loader = TextureFont::load_from_memory(Vec::new(), size(16.0), 4);
    assert_eq!(loader.current_stage(), LoadStage::Rejected);
    assert!(native.run(loader).is_none());
    assert!(native.calls.is_empty());
}

#[test]
fn load_from_corrupt_buffer_fails_and_deletes_the_atlas() {
    let mut native = FakeNative::new(ATLAS, 0);
    let font = native.run(TextureFont::load_from_memory(vec![0xDE, 0xAD, 0xBE], size(16.0), 1));
    assert!(font.is_none());
    assert_eq!(
        native.calls,
        vec![
            NativeCall::NewAtlas { width: 512, height: 512, depth: 1 },
            NativeCall::NewFontFromMemory { atlas: ATLAS, pt_size: size(16.0), len: 3 },
            NativeCall::DeleteAtlas { atlas: ATLAS },
        ]
    );
    assert_eq!(native.deletions_of_atlas(ATLAS), 1);
    assert_eq!(native.deletions_of_font(0), 0);
}

#[test]
fn load_from_memory_succeeds_for_each_supported_depth() {
    for depth in [1usize, 3, 4] {
        let mut native = FakeNative::new(ATLAS, FONT);
        let data = vec![9u8; 40];
        let font = native.run(TextureFont::load_from_memory(data, size(24.0), depth));
        assert!(font.is_some());
        assert_eq!(
            native.calls,
            vec![
                NativeCall::NewAtlas { width: 512, height: 512, depth },
                NativeCall::NewFontFromMemory { atlas: ATLAS, pt_size: size(24.0), len: 40 },
                NativeCall::LoadGlyphs { font: FONT, codes: default_codes() },
            ]
        );
    }
}

#[test]
fn memory_font_keeps_its_bytes_in_place() {
    let data: Vec<u8> = (0u8..200).collect();
    let expected = data.clone();
    let mut loader = TextureFont::load_from_memory(data, size(16.0), 4);
    let place = loader.font_data().expect("font data").as_ptr();
    assert_eq!(loader.font_data().expect("font data"), &expected);
    loader.advance(ATLAS);
    loader.advance(FONT);
    loader.advance(0);
    assert_eq!(loader.font_data().expect("font data").as_ptr(), place);
    let font = loader.finish().expect("a handle");
    let first = font.glyph_view(0x3000);
    let second = font.glyph_view(0x3040);
    assert!(first.is_some() && second.is_some());
    let teardown = font.release();
    let buffer = teardown.buffer.expect("the font data");
    assert_eq!(buffer.as_ptr(), place);
    assert_eq!(buffer, expected);
}

#[test]
fn file_font_retains_no_buffer() {
    let mut native = FakeNative::new(ATLAS, FONT);
    let font = native.run(TextureFont::load("a.ttf", size(16.0), 4)).expect("a handle");
    let teardown = font.release();
    assert!(teardown.buffer.is_none());
}

#[test]
fn release_deletes_font_then_atlas_once_each() {
    let mut native = FakeNative::new(ATLAS, FONT);
    let font = native.run(TextureFont::load("a.ttf", size(16.0), 4)).expect("a handle");
    {
        let a = font.glyph_view(0x3000).expect("a view");
        let b = font.glyph_view(0x3000).expect("a view");
        let c = font.glyph_view(0x3100).expect("a view");
        assert_eq!(a.native_glyph(), b.native_glyph());
        assert_eq!(c.native_glyph(), 0x3100);
    }
    let teardown = font.release();
    assert_eq!(teardown.delete_font, NativeCall::DeleteFont { font: FONT });
    assert_eq!(teardown.delete_atlas, NativeCall::DeleteAtlas { atlas: ATLAS });
    native.perform(teardown.delete_font);
    native.perform(teardown.delete_atlas);
    assert_eq!(native.deletions_of_font(FONT), 1);
    assert_eq!(native.deletions_of_atlas(ATLAS), 1);
    assert_eq!(native.calls.len(), 5);
    assert_eq!(native.calls[3], NativeCall::DeleteFont { font: FONT });
    assert_eq!(native.calls[4], NativeCall::DeleteAtlas { atlas: ATLAS });
}
