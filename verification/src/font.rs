//! The owning font handle, the views taken from it, and its destruction.
//!
//! A [`TextureFont`] owns a native font, the atlas it was created on and,
//! for a font made from memory, the bytes that the native font still reads.
//! Views of glyphs and of the atlas borrow the handle, and
//! [`TextureFont::release`] takes it by value: nothing can look into native
//! memory once its owner is gone, and nothing is deleted twice.
use core::marker::PhantomData;
use std::rc::Rc;
use vstd::prelude::*;
use vstd::string::StringSliceAdditionalSpecFns;
use crate::atlas::{pixel_bytes, AtlasView, TextureAtlas};
use crate::encoding::{c_code_of, char_to_c_code, default_codes, lemma_zero_byte_is_nul};
use crate::loader::{
    c_path_of, first_stage, load_calls, load_outcome, pending_call, FontLoader, FontSource,
    LoadRequest, LoadStage, SourceView,
};
use crate::native::{lemma_occurrences_push, occurrences, CallView, NativeCall, NULL_ADDRESS};

verus! {

/// An owning handle on a native font and the atlas it was created on.
///
/// The native records have no locking of their own, so a handle, and every
/// view that borrows it, stays on the thread that made it.
#[derive(Debug)]
pub struct TextureFont {
    font: usize,
    atlas: usize,
    bytes: Option<Vec<u8>>,
    confined: PhantomData<Rc<()>>,
}

/// What is to be done, in this order, to destroy a font: delete the native
/// font, delete its atlas, and only then let go of the font data.
#[derive(Debug)]
pub struct Teardown {
    pub delete_font: NativeCall,
    pub delete_atlas: NativeCall,
    pub buffer: Option<Vec<u8>>,
}

/// A view of one glyph of a font. It borrows the font's handle, so the
/// handle cannot be released while the view is in use.
pub struct TextureGlyph<'a> {
    font: &'a TextureFont,
    glyph: usize,
}

/// The native calls that destroy a font, in their order.
pub open spec fn teardown_calls(font: usize, atlas: usize) -> Seq<CallView> {
    seq![CallView::DeleteFont { font }, CallView::DeleteAtlas { atlas }]
}

/// Every native call from the start of a load to the release of the handle
/// that it gave, if it gave one.
pub open spec fn lifetime_calls(request: LoadRequest, atlas: usize, font: usize) -> Seq<
    CallView,
> {
    match load_outcome(atlas, font) {
        LoadStage::Loaded { atlas, font } => load_calls(request, atlas, font)
            + teardown_calls(font, atlas),
        _ => load_calls(request, atlas, font),
    }
}

/// From the start of a load to the release of its handle, every native
/// object that was created is deleted exactly once, and nothing is deleted
/// that was not created: the atlas once if it came back non-null, the font
/// once if the load gave a handle, and the font before the atlas.
pub proof fn lemma_deleted_exactly_once(
    request: LoadRequest,
    atlas: usize,
    font: usize,
    other: usize,
)
    ensures
        occurrences(
            lifetime_calls(request, atlas, font),
            CallView::DeleteAtlas { atlas: other },
        ) == if atlas != NULL_ADDRESS && other == atlas {
            1nat
        } else {
            0nat
        },
        occurrences(
            lifetime_calls(request, atlas, font),
            CallView::DeleteFont { font: other },
        ) == if atlas != NULL_ADDRESS && font != NULL_ADDRESS && other == font {
            1nat
        } else {
            0nat
        },
        load_outcome(atlas, font) is Loaded ==> {
            let calls = lifetime_calls(request, atlas, font);
            &&& calls.len() == 5
            &&& calls[3] == CallView::DeleteFont { font }
            &&& calls[4] == CallView::DeleteAtlas { atlas }
        },
{
    let calls = lifetime_calls(request, atlas, font);
    let new_atlas = pending_call(LoadStage::NeedAtlas, request)->0;
    let new_font = pending_call(LoadStage::NeedFont { atlas }, request)->0;
    let delete_atlas = CallView::DeleteAtlas { atlas };
    let delete_font = CallView::DeleteFont { font };
    let load_glyphs = CallView::LoadGlyphs { font, codes: default_codes() };
    let none = Seq::<CallView>::empty();
    let gone_atlas = CallView::DeleteAtlas { atlas: other };
    let gone_font = CallView::DeleteFont { font: other };
    assert(occurrences(none, gone_atlas) == 0);
    assert(occurrences(none, gone_font) == 0);
    lemma_occurrences_push(none, new_atlas, gone_atlas);
    lemma_occurrences_push(none, new_atlas, gone_font);
    let c1 = none.push(new_atlas);
    if atlas == NULL_ADDRESS {
        assert(calls =~= c1);
    } else {
        lemma_occurrences_push(c1, new_font, gone_atlas);
        lemma_occurrences_push(c1, new_font, gone_font);
        let c2 = c1.push(new_font);
        if font == NULL_ADDRESS {
            lemma_occurrences_push(c2, delete_atlas, gone_atlas);
            lemma_occurrences_push(c2, delete_atlas, gone_font);
            assert(calls =~= c2.push(delete_atlas));
        } else {
            lemma_occurrences_push(c2, load_glyphs, gone_atlas);
            lemma_occurrences_push(c2, load_glyphs, gone_font);
            let c3 = c2.push(load_glyphs);
            lemma_occurrences_push(c3, delete_font, gone_atlas);
            lemma_occurrences_push(c3, delete_font, gone_font);
            let c4 = c3.push(delete_font);
            lemma_occurrences_push(c4, delete_atlas, gone_atlas);
            lemma_occurrences_push(c4, delete_atlas, gone_font);
            assert(calls =~= c4.push(delete_atlas));
        }
    }
}

impl TextureFont {
    #[verifier::type_invariant]
    spec fn inv(self) -> bool {
        self.font != NULL_ADDRESS && self.atlas != NULL_ADDRESS
    }

    /// Address of the native font.
    pub closed spec fn font_address(&self) -> usize {
        self.font
    }

    /// Address of the native atlas that the font was created on.
    pub closed spec fn atlas_address(&self) -> usize {
        self.atlas
    }

    /// The font data that the handle keeps for the native font, if the font
    /// was made from memory.
    pub closed spec fn retained(&self) -> Option<Seq<u8>> {
        match self.bytes {
            Some(bytes) => Some(bytes@),
            None => None,
        }
    }

    /// Starts the creation of a font from the file at `path`, at the point
    /// size with the bits `pt_size`, on an atlas of the given pixel depth.
    /// The request is refused when the point size is not above zero, the
    /// depth is not supported, or the path holds the character NUL, which
    /// no native path can.
    pub fn load(path: &str, pt_size: u32, depth: usize) -> (loader: FontLoader)
        ensures
            loader.request() == (LoadRequest {
                source: SourceView::File { c_path: c_path_of(path.spec_bytes()) },
                pt_size,
                depth,
            }),
            loader.stage() == first_stage(pt_size, depth, !path@.contains('\0')),
    {
        let raw = path.as_bytes();
        let mut c_path: Vec<u8> = Vec::new();
        let mut clean = true;
        let mut i: usize = 0;
        while i < raw.len()
            invariant
                i <= raw@.len(),
                c_path@ == raw@.subrange(0, i as int),
                clean <==> !raw@.subrange(0, i as int).contains(0u8),
            decreases raw@.len() - i,
        {
            let byte: u8 = raw[i];
            c_path.push(byte);
            proof {
                let before = raw@.subrange(0, i as int);
                let after = raw@.subrange(0, i + 1);
                assert(after =~= before.push(byte));
                assert(c_path@ =~= after);
                if before.contains(0u8) {
                    let k = choose|k: int| 0 <= k < before.len() && before[k] == 0u8;
                    assert(after[k] == 0u8);
                }
                if byte == 0 {
                    assert(after[i as int] == 0u8);
                }
            }
            if byte == 0 {
                clean = false;
            }
            i = i + 1;
        }
        proof {
            assert(raw@.subrange(0, i as int) =~= raw@);
            lemma_zero_byte_is_nul(path@);
        }
        c_path.push(0u8);
        FontLoader::start(FontSource::File { c_path }, pt_size, depth, clean)
    }

    /// Starts the creation of a font from font data in memory, at the point
    /// size with the bits `pt_size`, on an atlas of the given pixel depth.
    /// The loader, and after it the handle, keeps the data where it is. The
    /// request is refused when the point size is not above zero, the depth
    /// is not supported, or the data is empty.
    pub fn load_from_memory(font_data: Vec<u8>, pt_size: u32, depth: usize) -> (loader: FontLoader)
        ensures
            loader.request() == (LoadRequest {
                source: SourceView::Memory { data: font_data@ },
                pt_size,
                depth,
            }),
            loader.stage() == first_stage(pt_size, depth, font_data@.len() > 0),
    {
        let usable = font_data.len() > 0;
        FontLoader::start(FontSource::Memory { data: font_data }, pt_size, depth, usable)
    }

    /// Takes ownership of a native font and atlas that a load has created,
    /// and of the font data that the font reads, if any.
    pub(crate) fn adopt(font: usize, atlas: usize, bytes: Option<Vec<u8>>) -> (handle: TextureFont)
        requires
            font != NULL_ADDRESS,
            atlas != NULL_ADDRESS,
        ensures
            handle.font_address() == font,
            handle.atlas_address() == atlas,
            handle.retained() == match bytes {
                Some(bytes) => Some(bytes@),
                None => None,
            },
    {
        TextureFont { font, atlas, bytes, confined: PhantomData }
    }

    /// The address of the native font, for reading its fields.
    pub fn native_font(&self) -> (address: usize)
        ensures
            address == self.font_address(),
            address != NULL_ADDRESS,
    {
        proof {
            use_type_invariant(self);
        }
        self.font
    }

    /// The address of the atlas that the font was created on, for reading
    /// its fields.
    pub fn native_atlas(&self) -> (address: usize)
        ensures
            address == self.atlas_address(),
            address != NULL_ADDRESS,
    {
        proof {
            use_type_invariant(self);
        }
        self.atlas
    }

    /// The call that looks up the glyph of `c`, which is sent as
    /// terminated UTF-8.
    pub fn glyph(&self, c: char) -> (call: NativeCall)
        ensures
            call@ == (CallView::GetGlyph { font: self.font_address(), code: c_code_of(c) }),
    {
        NativeCall::GetGlyph { font: self.font, code: char_to_c_code(c) }
    }

    /// The call that looks up a glyph by the rasteriser's own identifier.
    pub fn glyph_by_freetype_id(&self, glyph_id: u32) -> (call: NativeCall)
        ensures
            call@ == (CallView::GetGlyphById { font: self.font_address(), glyph_id }),
    {
        NativeCall::GetGlyphById { font: self.font, glyph_id }
    }

    /// Turns what a glyph lookup returned into a view of the glyph, which
    /// borrows the handle; a null reply means that the font has no such
    /// glyph.
    pub fn glyph_view<'a>(&'a self, reply: usize) -> (glyph: Option<TextureGlyph<'a>>)
        ensures
            glyph is Some <==> reply != NULL_ADDRESS,
            glyph is Some ==> glyph->0.glyph_address() == reply && glyph->0.owner() == *self,
    {
        if reply == NULL_ADDRESS {
            None
        } else {
            Some(TextureGlyph { font: self, glyph: reply })
        }
    }

    /// Takes a snapshot of the font's atlas from what was read at
    /// [`TextureFont::native_atlas`]. The snapshot borrows the handle, and
    /// it is refused unless `data` is as long as the dimensions say.
    pub fn atlas<'a>(
        &'a self,
        width: usize,
        height: usize,
        depth: usize,
        used: usize,
        id: u32,
        data: &'a [u8],
    ) -> (atlas: Option<TextureAtlas<'a>>)
        ensures
            atlas is Some <==> data@.len() == pixel_bytes(
                width as nat,
                height as nat,
                depth as nat,
            ),
            atlas is Some ==> atlas->0@ == (AtlasView {
                width: width as nat,
                height: height as nat,
                depth: depth as nat,
                used: used as nat,
                id,
                data: data@,
            }),
    {
        TextureAtlas::new(width, height, depth, used, id, data)
    }

    /// Gives up the handle for what destroys it: the native font is deleted
    /// first, then its atlas, and the font data is handed back so that it
    /// outlives both calls.
    pub fn release(self) -> (teardown: Teardown)
        ensures
            seq![teardown.delete_font@, teardown.delete_atlas@] == teardown_calls(
                self.font_address(),
                self.atlas_address(),
            ),
            match teardown.buffer {
                Some(buffer) => self.retained() == Some(buffer@),
                None => self.retained() is None,
            },
    {
        let teardown = Teardown {
            delete_font: NativeCall::DeleteFont { font: self.font },
            delete_atlas: NativeCall::DeleteAtlas { atlas: self.atlas },
            buffer: self.bytes,
        };
        assert(seq![teardown.delete_font@, teardown.delete_atlas@] =~= teardown_calls(
            self.font,
            self.atlas,
        ));
        teardown
    }
}

impl<'a> TextureGlyph<'a> {
    #[verifier::type_invariant]
    spec fn inv(self) -> bool {
        self.glyph != NULL_ADDRESS
    }

    /// Address of the native glyph record.
    pub closed spec fn glyph_address(&self) -> usize {
        self.glyph
    }

    /// The handle that the view was taken from.
    pub closed spec fn owner(&self) -> TextureFont {
        *self.font
    }

    /// The address of the native glyph record, for reading its fields.
    pub fn native_glyph(&self) -> (address: usize)
        ensures
            address == self.glyph_address(),
            address != NULL_ADDRESS,
    {
        proof {
            use_type_invariant(self);
        }
        self.glyph
    }

    /// The call that asks for the kerning between this glyph and the glyph
    /// of `c`, which is sent as terminated UTF-8.
    pub fn kerning(&self, c: char) -> (call: NativeCall)
        ensures
            call@ == (CallView::GetKerning { glyph: self.glyph_address(), code: c_code_of(c) }),
    {
        NativeCall::GetKerning { glyph: self.glyph, code: char_to_c_code(c) }
    }
}

} // verus!
