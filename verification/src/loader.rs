//! The steps that create a font.
//!
//! Creating a font takes up to three native calls, and what follows each
//! depends on what the one before returned. [`FontLoader`] holds that
//! progress: [`FontLoader::pending`] names the call to perform next and
//! [`FontLoader::advance`] takes what it returned. A loader that has reached
//! [`LoadStage::Loaded`] gives up a [`TextureFont`]; one that failed has
//! left nothing native behind.
use core::marker::PhantomData;
use std::rc::Rc;
use vstd::prelude::*;
use crate::encoding::{default_codes, default_glyph_codes};
use crate::font::TextureFont;
use crate::native::{CallView, NativeCall, NULL_ADDRESS};

verus! {

/// Width in pixels of the atlas that every font is created on.
pub const ATLAS_WIDTH: usize = 512;

/// Height in pixels of the atlas that every font is created on.
pub const ATLAS_HEIGHT: usize = 512;

/// The pixel depths, in bytes, that an atlas can be created with.
pub open spec fn supported_depth(depth: usize) -> bool {
    depth == 1 || depth == 3 || depth == 4
}

/// Largest bit pattern of a point size: that of positive infinity. The
/// patterns above it are not numbers or have the sign bit set.
pub const MAX_SIZE_BITS: u32 = 0x7F80_0000;

/// Whether `pt_size` holds the bits of a point size above zero.
pub open spec fn positive_size(pt_size: u32) -> bool {
    0 < pt_size <= MAX_SIZE_BITS
}

/// The bytes handed to the native library for a path: the path's own bytes
/// and a closing NUL.
pub open spec fn c_path_of(path: Seq<u8>) -> Seq<u8> {
    path.push(0u8)
}

/// How far the creation of a font has come.
#[derive(Clone, Copy, Debug, PartialEq, Eq, Structural)]
pub enum LoadStage {
    /// The request was refused before any native call was made.
    Rejected,
    /// The atlas is to be created.
    NeedAtlas,
    /// The atlas exists and the font is to be created on it.
    NeedFont { atlas: usize },
    /// Atlas and font exist and the default glyphs are to be rasterised.
    NeedGlyphs { atlas: usize, font: usize },
    /// The font could not be created and the atlas is to be deleted.
    Unwinding { atlas: usize },
    /// Atlas and font exist and nothing is left to do.
    Loaded { atlas: usize, font: usize },
    /// Creation failed and nothing native is left behind.
    Failed,
}

/// What a font is created from.
#[derive(Debug)]
pub enum FontSource {
    /// A file, named by the NUL-terminated bytes of its path.
    File { c_path: Vec<u8> },
    /// Font data held in memory.
    Memory { data: Vec<u8> },
}

/// What a [`FontSource`] holds, over mathematical sequences.
pub enum SourceView {
    File { c_path: Seq<u8> },
    Memory { data: Seq<u8> },
}

impl View for FontSource {
    type V = SourceView;

    open spec fn view(&self) -> SourceView {
        match *self {
            FontSource::File { c_path } => SourceView::File { c_path: c_path@ },
            FontSource::Memory { data } => SourceView::Memory { data: data@ },
        }
    }
}

/// What was asked for when a load began; it stays the same to the end.
pub struct LoadRequest {
    pub source: SourceView,
    pub pt_size: u32,
    pub depth: usize,
}

/// The font data that a handle keeps for a font made from `source`.
pub open spec fn retained_data(source: SourceView) -> Option<Seq<u8>> {
    match source {
        SourceView::File { c_path } => None,
        SourceView::Memory { data } => Some(data),
    }
}

/// The stage that a new request starts in: it is refused unless the point
/// size is above zero, the depth is supported and the source can be handed
/// to the native library.
pub open spec fn first_stage(pt_size: u32, depth: usize, usable_source: bool) -> LoadStage {
    if positive_size(pt_size) && supported_depth(depth) && usable_source {
        LoadStage::NeedAtlas
    } else {
        LoadStage::Rejected
    }
}

/// The call that a stage waits for, if it waits for one.
pub open spec fn pending_call(stage: LoadStage, request: LoadRequest) -> Option<CallView> {
    let LoadRequest { source, pt_size, depth } = request;
    match stage {
        LoadStage::NeedAtlas => Some(
            CallView::NewAtlas { width: ATLAS_WIDTH, height: ATLAS_HEIGHT, depth },
        ),
        LoadStage::NeedFont { atlas } => Some(
            match source {
                SourceView::File { c_path } => CallView::NewFontFromFile {
                    atlas,
                    pt_size,
                    c_path,
                },
                SourceView::Memory { data } => CallView::NewFontFromMemory {
                    atlas,
                    pt_size,
                    len: data.len() as usize,
                },
            },
        ),
        LoadStage::NeedGlyphs { atlas, font } => Some(
            CallView::LoadGlyphs { font, codes: default_codes() },
        ),
        LoadStage::Unwinding { atlas } => Some(CallView::DeleteAtlas { atlas }),
        LoadStage::Rejected | LoadStage::Loaded { .. } | LoadStage::Failed => None,
    }
}

/// The stage that follows `stage` once its pending call has returned
/// `reply`. A null atlas fails the load at once; a null font fails it after
/// the atlas has been deleted; what the rasterising of the default glyphs
/// returns is not looked at.
pub open spec fn next_stage(stage: LoadStage, reply: usize) -> LoadStage {
    match stage {
        LoadStage::NeedAtlas => if reply == NULL_ADDRESS {
            LoadStage::Failed
        } else {
            LoadStage::NeedFont { atlas: reply }
        },
        LoadStage::NeedFont { atlas } => if reply == NULL_ADDRESS {
            LoadStage::Unwinding { atlas }
        } else {
            LoadStage::NeedGlyphs { atlas, font: reply }
        },
        LoadStage::NeedGlyphs { atlas, font } => LoadStage::Loaded { atlas, font },
        LoadStage::Unwinding { atlas } => LoadStage::Failed,
        LoadStage::Rejected => LoadStage::Rejected,
        LoadStage::Loaded { atlas, font } => LoadStage::Loaded { atlas, font },
        LoadStage::Failed => LoadStage::Failed,
    }
}

/// No stage holds a null address.
pub open spec fn stage_sound(stage: LoadStage) -> bool {
    match stage {
        LoadStage::NeedFont { atlas } => atlas != NULL_ADDRESS,
        LoadStage::NeedGlyphs { atlas, font } => atlas != NULL_ADDRESS && font != NULL_ADDRESS,
        LoadStage::Unwinding { atlas } => atlas != NULL_ADDRESS,
        LoadStage::Loaded { atlas, font } => atlas != NULL_ADDRESS && font != NULL_ADDRESS,
        LoadStage::Rejected | LoadStage::NeedAtlas | LoadStage::Failed => true,
    }
}

/// A stage that holds no null address is followed by one that holds none,
/// whatever the native library returned.
pub proof fn lemma_next_stage_sound(stage: LoadStage, reply: usize)
    requires
        stage_sound(stage),
    ensures
        stage_sound(next_stage(stage, reply)),
{
}

/// The greatest number of native calls that a load in `stage` still makes.
pub open spec fn calls_left(stage: LoadStage) -> nat {
    match stage {
        LoadStage::NeedAtlas => 3,
        LoadStage::NeedFont { .. } => 2,
        LoadStage::NeedGlyphs { .. } | LoadStage::Unwinding { .. } => 1,
        LoadStage::Rejected | LoadStage::Loaded { .. } | LoadStage::Failed => 0,
    }
}

/// A load waits for a call exactly as long as calls are left, and every
/// reply brings its end closer: whoever performs the pending call and hands
/// back what it returned, again and again, comes to an end from any stage.
pub proof fn lemma_reply_brings_end_closer(stage: LoadStage, request: LoadRequest, reply: usize)
    ensures
        pending_call(stage, request) is Some <==> calls_left(stage) > 0,
        pending_call(stage, request) is Some ==> calls_left(next_stage(stage, reply)) < calls_left(
            stage,
        ),
{
}

/// The stage reached from `stage` when the pending calls return `replies`
/// in this order.
pub open spec fn stage_after(stage: LoadStage, replies: Seq<usize>) -> LoadStage
    decreases replies.len(),
{
    if replies.len() == 0 {
        stage
    } else {
        stage_after(next_stage(stage, replies[0]), replies.drop_first())
    }
}

/// The native calls that were performed on the way from `stage` when the
/// pending calls returned `replies` in this order.
pub open spec fn calls_made(
    stage: LoadStage,
    request: LoadRequest,
    replies: Seq<usize>,
) -> Seq<CallView>
    decreases replies.len(),
{
    if replies.len() == 0 {
        Seq::empty()
    } else {
        let rest = calls_made(next_stage(stage, replies[0]), request, replies.drop_first());
        match pending_call(stage, request) {
            Some(call) => seq![call] + rest,
            None => rest,
        }
    }
}

/// How a load ends when the atlas call returned `atlas` and the font call,
/// if it was made, returned `font`.
pub open spec fn load_outcome(atlas: usize, font: usize) -> LoadStage {
    if atlas != NULL_ADDRESS && font != NULL_ADDRESS {
        LoadStage::Loaded { atlas, font }
    } else {
        LoadStage::Failed
    }
}

/// The native calls of a whole load in which the atlas call returned `atlas`
/// and the font call, if it was made, returned `font`.
pub open spec fn load_calls(request: LoadRequest, atlas: usize, font: usize) -> Seq<
    CallView,
> {
    let new_atlas = pending_call(LoadStage::NeedAtlas, request)->0;
    let new_font = pending_call(LoadStage::NeedFont { atlas }, request)->0;
    if atlas == NULL_ADDRESS {
        seq![new_atlas]
    } else if font == NULL_ADDRESS {
        seq![new_atlas, new_font, CallView::DeleteAtlas { atlas }]
    } else {
        seq![new_atlas, new_font, CallView::LoadGlyphs { font, codes: default_codes() }]
    }
}

/// A load that has ended stays as it is and makes no further call, whatever
/// it is told.
pub proof fn lemma_ended_load_is_final(
    stage: LoadStage,
    request: LoadRequest,
    replies: Seq<usize>,
)
    requires
        pending_call(stage, request) is None,
    ensures
        stage_after(stage, replies) == stage,
        calls_made(stage, request, replies) == Seq::<CallView>::empty(),
    decreases replies.len(),
{
    if replies.len() > 0 {
        lemma_ended_load_is_final(stage, request, replies.drop_first());
    }
}

/// A refused request never becomes a font and never reaches the native
/// library.
pub proof fn lemma_rejected_load(request: LoadRequest, replies: Seq<usize>)
    ensures
        stage_after(LoadStage::Rejected, replies) == LoadStage::Rejected,
        calls_made(LoadStage::Rejected, request, replies) == Seq::<CallView>::empty(),
{
    lemma_ended_load_is_final(LoadStage::Rejected, request, replies);
}

/// Every accepted load ends within three replies. It ends loaded exactly
/// when neither the atlas nor the font came back null, and on the way it
/// makes the calls of [`load_calls`] and no other: a failed load deletes the
/// atlas it had created and creates nothing else.
pub proof fn lemma_load_settles(request: LoadRequest, replies: Seq<usize>)
    requires
        replies.len() >= 3,
    ensures
        stage_after(LoadStage::NeedAtlas, replies) == load_outcome(replies[0], replies[1]),
        calls_made(LoadStage::NeedAtlas, request, replies) == load_calls(
            request,
            replies[0],
            replies[1],
        ),
{
    let atlas = replies[0];
    let font = replies[1];
    let r1 = replies.drop_first();
    let r2 = r1.drop_first();
    let r3 = r2.drop_first();
    assert(r1[0] == font);
    let s1 = next_stage(LoadStage::NeedAtlas, atlas);
    let s2 = next_stage(s1, font);
    let s3 = next_stage(s2, r2[0]);
    assert(stage_after(LoadStage::NeedAtlas, replies) == stage_after(s1, r1));
    assert(calls_made(LoadStage::NeedAtlas, request, replies) == seq![
        pending_call(LoadStage::NeedAtlas, request)->0,
    ] + calls_made(s1, request, r1));
    if atlas == NULL_ADDRESS {
        lemma_ended_load_is_final(s1, request, r1);
        assert(calls_made(LoadStage::NeedAtlas, request, replies) =~= load_calls(
            request,
            atlas,
            font,
        ));
    } else {
        assert(stage_after(s1, r1) == stage_after(s2, r2));
        assert(calls_made(s1, request, r1) == seq![pending_call(s1, request)->0]
            + calls_made(s2, request, r2));
        assert(stage_after(s2, r2) == stage_after(s3, r3));
        assert(calls_made(s2, request, r2) == seq![pending_call(s2, request)->0]
            + calls_made(s3, request, r3));
        lemma_ended_load_is_final(s3, request, r3);
        assert(calls_made(LoadStage::NeedAtlas, request, replies) =~= load_calls(
            request,
            atlas,
            font,
        ));
    }
}

/// The creation of one font, between its native calls.
///
/// A loader holds native objects that have no locking of their own, so it
/// stays on the thread that made it.
#[derive(Debug)]
pub struct FontLoader {
    source: FontSource,
    pt_size: u32,
    depth: usize,
    stage: LoadStage,
    confined: PhantomData<Rc<()>>,
}

impl FontLoader {
    #[verifier::type_invariant]
    spec fn inv(self) -> bool {
        stage_sound(self.stage)
    }

    /// The stage that the loader is in.
    pub closed spec fn stage(&self) -> LoadStage {
        self.stage
    }

    /// What was asked for.
    pub closed spec fn request(&self) -> LoadRequest {
        LoadRequest { source: self.source@, pt_size: self.pt_size, depth: self.depth }
    }

    /// Begins a load of `source`: with the first call pending if the
    /// request can go ahead, refused if it cannot.
    pub(crate) fn start(source: FontSource, pt_size: u32, depth: usize, usable_source: bool) -> (loader:
        FontLoader)
        ensures
            loader.request() == (LoadRequest { source: source@, pt_size, depth }),
            loader.stage() == first_stage(pt_size, depth, usable_source),
    {
        let positive = 0 < pt_size && pt_size <= MAX_SIZE_BITS;
        let supported = depth == 1 || depth == 3 || depth == 4;
        let stage = if positive && supported && usable_source {
            LoadStage::NeedAtlas
        } else {
            LoadStage::Rejected
        };
        FontLoader { source, pt_size, depth, stage, confined: PhantomData }
    }

    /// The stage that the loader is in. It holds no null address, whatever
    /// the loader has been told.
    pub fn current_stage(&self) -> (stage: LoadStage)
        ensures
            stage == self.stage(),
            stage_sound(stage),
    {
        proof {
            use_type_invariant(self);
        }
        self.stage
    }

    /// The font data that a load from memory hands to the native library, in
    /// the place where it stays until the font is destroyed.
    pub fn font_data(&self) -> (data: Option<&Vec<u8>>)
        ensures
            match data {
                Some(held) => retained_data(self.request().source) == Some(held@),
                None => retained_data(self.request().source) is None,
            },
    {
        match &self.source {
            FontSource::File { c_path } => None,
            FontSource::Memory { data } => Some(data),
        }
    }

    /// The native call to perform next, or `None` when the load has ended.
    pub fn pending(&self) -> (call: Option<NativeCall>)
        ensures
            match call {
                Some(call) => pending_call(self.stage(), self.request()) == Some(call@),
                None => pending_call(self.stage(), self.request()) is None,
            },
    {
        match self.stage {
            LoadStage::NeedAtlas => Some(
                NativeCall::NewAtlas {
                    width: ATLAS_WIDTH,
                    height: ATLAS_HEIGHT,
                    depth: self.depth,
                },
            ),
            LoadStage::NeedFont { atlas } => match &self.source {
                FontSource::File { c_path } => {
                    let copy = c_path.clone();
                    assert(copy@ =~= c_path@);
                    Some(NativeCall::NewFontFromFile { atlas, pt_size: self.pt_size, c_path: copy })
                },
                FontSource::Memory { data } => Some(
                    NativeCall::NewFontFromMemory {
                        atlas,
                        pt_size: self.pt_size,
                        len: data.len(),
                    },
                ),
            },
            LoadStage::NeedGlyphs { atlas, font } => Some(
                NativeCall::LoadGlyphs { font, codes: default_glyph_codes() },
            ),
            LoadStage::Unwinding { atlas } => Some(NativeCall::DeleteAtlas { atlas }),
            LoadStage::Rejected => None,
            LoadStage::Loaded { atlas, font } => None,
            LoadStage::Failed => None,
        }
    }

    /// Takes what the pending call returned: the address of what it
    /// created, or null. For a call that creates nothing any value does.
    pub fn advance(&mut self, reply: usize)
        ensures
            final(self).stage() == next_stage(old(self).stage(), reply),
            final(self).request() == old(self).request(),
    {
        proof {
            use_type_invariant(&*self);
        }
        let next = match self.stage {
            LoadStage::NeedAtlas => if reply == NULL_ADDRESS {
                LoadStage::Failed
            } else {
                LoadStage::NeedFont { atlas: reply }
            },
            LoadStage::NeedFont { atlas } => if reply == NULL_ADDRESS {
                LoadStage::Unwinding { atlas }
            } else {
                LoadStage::NeedGlyphs { atlas, font: reply }
            },
            LoadStage::NeedGlyphs { atlas, font } => LoadStage::Loaded { atlas, font },
            LoadStage::Unwinding { atlas } => LoadStage::Failed,
            LoadStage::Rejected => LoadStage::Rejected,
            LoadStage::Loaded { atlas, font } => LoadStage::Loaded { atlas, font },
            LoadStage::Failed => LoadStage::Failed,
        };
        self.stage = next;
    }

    /// Ends the load. A loader that has reached [`LoadStage::Loaded`] gives
    /// the handle on what was created, which keeps the font data of a load
    /// from memory. Any other loader comes back as it is: one that failed
    /// or was refused holds nothing, and one that still waits for a call can
    /// go on.
    #[must_use]
    pub fn finish(self) -> (font: Result<TextureFont, FontLoader>)
        ensures
            match font {
                Ok(font) => {
                    &&& self.stage() == (LoadStage::Loaded {
                        atlas: font.atlas_address(),
                        font: font.font_address(),
                    })
                    &&& font.retained() == retained_data(self.request().source)
                },
                Err(loader) => !(self.stage() is Loaded) && loader == self,
            },
    {
        proof {
            use_type_invariant(&self);
        }
        match self.stage {
            LoadStage::Loaded { atlas, font } => {
                let bytes = match self.source {
                    FontSource::File { c_path } => None,
                    FontSource::Memory { data } => Some(data),
                };
                Ok(TextureFont::adopt(font, atlas, bytes))
            },
            _ => Err(self),
        }
    }
}

} // verus!
