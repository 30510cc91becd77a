//! The calls that cross into the native library, as plain values.
//!
//! Nothing in this crate performs a native call. A call is described by a
//! [`NativeCall`]; whoever links the native library performs it and reports
//! the address it returned, with zero standing for the null pointer. A point
//! size travels as the bits of a single-precision number.
use vstd::prelude::*;

verus! {

/// The address that the native library returns when it could not create or
/// find an object.
pub const NULL_ADDRESS: usize = 0;

/// One call into the native library, with everything that is handed to it.
#[derive(Debug, PartialEq, Eq)]
pub enum NativeCall {
    /// Create an atlas of `width` by `height` pixels, `depth` bytes each.
    NewAtlas { width: usize, height: usize, depth: usize },
    /// Create a font on `atlas`, at the point size with the bits `pt_size`,
    /// from the file named by the NUL-terminated bytes `c_path`.
    NewFontFromFile { atlas: usize, pt_size: u32, c_path: Vec<u8> },
    /// Create a font on `atlas`, at the point size with the bits `pt_size`,
    /// from the first `len` bytes of the caller's font data, which the
    /// native font reads until it is deleted.
    NewFontFromMemory { atlas: usize, pt_size: u32, len: usize },
    /// Rasterise into `font` the glyphs of the characters in `codes`, a
    /// terminated text in UTF-8.
    LoadGlyphs { font: usize, codes: Vec<u8> },
    /// Look up in `font` the glyph of the one character in `code`, a
    /// terminated text in UTF-8.
    GetGlyph { font: usize, code: Vec<u8> },
    /// Look up in `font` the glyph with the rasteriser's own identifier.
    GetGlyphById { font: usize, glyph_id: u32 },
    /// Ask for the kerning between `glyph` and the one character in
    /// `code`, a terminated text in UTF-8.
    GetKerning { glyph: usize, code: Vec<u8> },
    /// Delete the native font at `font`.
    DeleteFont { font: usize },
    /// Delete the native atlas at `atlas`.
    DeleteAtlas { atlas: usize },
}

/// What a [`NativeCall`] says, over mathematical sequences.
pub enum CallView {
    NewAtlas { width: usize, height: usize, depth: usize },
    NewFontFromFile { atlas: usize, pt_size: u32, c_path: Seq<u8> },
    NewFontFromMemory { atlas: usize, pt_size: u32, len: usize },
    LoadGlyphs { font: usize, codes: Seq<u8> },
    GetGlyph { font: usize, code: Seq<u8> },
    GetGlyphById { font: usize, glyph_id: u32 },
    GetKerning { glyph: usize, code: Seq<u8> },
    DeleteFont { font: usize },
    DeleteAtlas { atlas: usize },
}

impl View for NativeCall {
    type V = CallView;

    open spec fn view(&self) -> CallView {
        match *self {
            NativeCall::NewAtlas { width, height, depth } => CallView::NewAtlas {
                width,
                height,
                depth,
            },
            NativeCall::NewFontFromFile { atlas, pt_size, c_path } => CallView::NewFontFromFile {
                atlas,
                pt_size,
                c_path: c_path@,
            },
            NativeCall::NewFontFromMemory { atlas, pt_size, len } => CallView::NewFontFromMemory {
                atlas,
                pt_size,
                len,
            },
            NativeCall::LoadGlyphs { font, codes } => CallView::LoadGlyphs { font, codes: codes@ },
            NativeCall::GetGlyph { font, code } => CallView::GetGlyph { font, code: code@ },
            NativeCall::GetGlyphById { font, glyph_id } => CallView::GetGlyphById {
                font,
                glyph_id,
            },
            NativeCall::GetKerning { glyph, code } => CallView::GetKerning { glyph, code: code@ },
            NativeCall::DeleteFont { font } => CallView::DeleteFont { font },
            NativeCall::DeleteAtlas { atlas } => CallView::DeleteAtlas { atlas },
        }
    }
}

/// How often `target` occurs among `calls`.
pub open spec fn occurrences(calls: Seq<CallView>, target: CallView) -> nat
    decreases calls.len(),
{
    if calls.len() == 0 {
        0
    } else {
        let rest = occurrences(calls.drop_last(), target);
        if calls.last() == target {
            rest + 1
        } else {
            rest
        }
    }
}

/// Appending a call adds one occurrence of that call and of no other.
pub proof fn lemma_occurrences_push(calls: Seq<CallView>, call: CallView, target: CallView)
    ensures
        occurrences(calls.push(call), target) == occurrences(calls, target) + if call == target {
            1nat
        } else {
            0nat
        },
{
    assert(calls.push(call).drop_last() =~= calls);
}

} // verus!
