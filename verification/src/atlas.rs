//! A snapshot of a native atlas whose pixel view has the length that its
//! dimensions call for.
use core::marker::PhantomData;
use std::rc::Rc;
use vstd::prelude::*;

verus! {

/// What a [`TextureAtlas`] holds, over mathematical values.
pub struct AtlasView {
    pub width: nat,
    pub height: nat,
    pub depth: nat,
    pub used: nat,
    pub id: u32,
    pub data: Seq<u8>,
}

/// The number of bytes in the pixel buffer of an atlas.
pub open spec fn pixel_bytes(width: nat, height: nat, depth: nat) -> nat {
    width * height * depth
}

/// The dimensions of a native atlas together with a view of its pixels.
///
/// The view is borrowed, so a snapshot cannot outlive what it was taken
/// from, and it is as long as the dimensions say. The pixels are native
/// memory without locking, so a snapshot stays on the thread that took it.
pub struct TextureAtlas<'a> {
    width: usize,
    height: usize,
    depth: usize,
    used: usize,
    id: u32,
    data: &'a [u8],
    confined: PhantomData<Rc<()>>,
}

impl<'a> View for TextureAtlas<'a> {
    type V = AtlasView;

    closed spec fn view(&self) -> AtlasView {
        AtlasView {
            width: self.width as nat,
            height: self.height as nat,
            depth: self.depth as nat,
            used: self.used as nat,
            id: self.id,
            data: self.data@,
        }
    }
}

impl<'a> TextureAtlas<'a> {
    #[verifier::type_invariant]
    spec fn inv(self) -> bool {
        self.data@.len() == pixel_bytes(self.width as nat, self.height as nat, self.depth as nat)
    }

    /// The length of the pixel buffer of an atlas with these dimensions, or
    /// `None` where no buffer in memory can be that long.
    pub fn data_len(width: usize, height: usize, depth: usize) -> (len: Option<usize>)
        ensures
            len is Some <==> pixel_bytes(width as nat, height as nat, depth as nat) <= usize::MAX,
            len is Some ==> len->0 == pixel_bytes(width as nat, height as nat, depth as nat),
    {
        if width == 0 || height == 0 || depth == 0 {
            assert(width * height * depth == 0) by (nonlinear_arith)
                requires
                    width == 0 || height == 0 || depth == 0,
            ;
            return Some(0);
        }
        match width.checked_mul(height) {
            None => {
                assert(width * height * depth > usize::MAX) by (nonlinear_arith)
                    requires
                        width * height > usize::MAX,
                        depth >= 1,
                ;
                None
            },
            Some(area) => area.checked_mul(depth),
        }
    }

    /// Takes a snapshot of an atlas with the given dimensions, used area
    /// and texture id, whose pixels are `data`. It is refused unless `data`
    /// has one byte per pixel and unit of depth.
    pub fn new(
        width: usize,
        height: usize,
        depth: usize,
        used: usize,
        id: u32,
        data: &'a [u8],
    ) -> (atlas: Option<TextureAtlas<'a>>)
        ensures
            atlas is Some <==> data@.len() == pixel_bytes(
                width as nat,
                height as nat,
                depth as nat,
            ),
            atlas is Some ==> atlas->0@ == (AtlasView {
                width: width as nat,
                height: height as nat,
                depth: depth as nat,
                used: used as nat,
                id,
                data: data@,
            }),
    {
        let given = data.len();
        match Self::data_len(width, height, depth) {
            Some(len) => if given == len {
                Some(TextureAtlas { width, height, depth, used, id, data, confined: PhantomData })
            } else {
                None
            },
            None => None,
        }
    }

    /// Width (in pixels) of the underlying texture.
    pub fn width(&self) -> (width: usize)
        ensures
            width == self@.width,
    {
        self.width
    }

    /// Height (in pixels) of the underlying texture.
    pub fn height(&self) -> (height: usize)
        ensures
            height == self@.height,
    {
        self.height
    }

    /// Depth (in bytes) of the underlying texture.
    pub fn depth(&self) -> (depth: usize)
        ensures
            depth == self@.depth,
    {
        self.depth
    }

    /// Allocated surface size.
    pub fn used(&self) -> (used: usize)
        ensures
            used == self@.used,
    {
        self.used
    }

    /// Texture identity in the caller's graphics context.
    pub fn id(&self) -> (id: u32)
        ensures
            id == self@.id,
    {
        self.id
    }

    /// The pixels of the atlas: one byte per pixel and unit of depth.
    pub fn data(&self) -> (data: &'a [u8])
        ensures
            data@ == self@.data,
            data@.len() == pixel_bytes(self@.width, self@.height, self@.depth),
    {
        proof {
            use_type_invariant(self);
        }
        self.data
    }
}

} // verus!
