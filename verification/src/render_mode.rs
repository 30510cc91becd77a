//! The rendering modes of the native rasteriser and their numbers.
use vstd::prelude::*;

verus! {

/// How the rasteriser renders a glyph.
#[derive(Clone, Copy, Debug, PartialEq, Eq, Structural)]
pub enum RenderMode {
    Normal,
    OutlineEdge,
    OutlinePositive,
    OutlineNegatice,
    SignedDistanceField,
}

/// The number that the native library knows a mode by.
pub open spec fn raw_of(mode: RenderMode) -> u32 {
    match mode {
        RenderMode::Normal => 0,
        RenderMode::OutlineEdge => 1,
        RenderMode::OutlinePositive => 2,
        RenderMode::OutlineNegatice => 3,
        RenderMode::SignedDistanceField => 4,
    }
}

impl RenderMode {
    /// The mode that the native library knows by `raw`, if there is one.
    pub fn from_raw(raw: u32) -> (mode: Option<RenderMode>)
        ensures
            mode is Some <==> raw <= raw_of(RenderMode::SignedDistanceField),
            mode is Some ==> raw_of(mode->0) == raw,
    {
        if raw == 0 {
            Some(RenderMode::Normal)
        } else if raw == 1 {
            Some(RenderMode::OutlineEdge)
        } else if raw == 2 {
            Some(RenderMode::OutlinePositive)
        } else if raw == 3 {
            Some(RenderMode::OutlineNegatice)
        } else if raw == 4 {
            Some(RenderMode::SignedDistanceField)
        } else {
            None
        }
    }

    /// The number that the native library knows this mode by.
    pub fn raw(&self) -> (raw: u32)
        ensures
            raw == raw_of(*self),
    {
        match self {
            RenderMode::Normal => 0,
            RenderMode::OutlineEdge => 1,
            RenderMode::OutlinePositive => 2,
            RenderMode::OutlineNegatice => 3,
            RenderMode::SignedDistanceField => 4,
        }
    }
}

/// Two modes with one number are one mode, so a number read from native
/// memory stands for at most one mode.
pub proof fn lemma_raw_of_injective(a: RenderMode, b: RenderMode)
    requires
        raw_of(a) == raw_of(b),
    ensures
        a == b,
{
}

} // verus!
