//! A decoded picture as the codec engine leaves it: luma, two chroma planes
//! and perhaps an alpha plane, each a run of bytes in one shared buffer.

use vstd::prelude::*;

verus! {

/// Where the planes of a picture lie in its buffer. Rows follow each other
/// without padding, so a plane of `w` by `h` samples is `w * h` bytes long.
#[derive(Clone, Copy, Debug, PartialEq, Eq, Structural)]
pub struct PlaneLayout {
    /// Luma samples in a row; the alpha plane has the same size.
    pub width: usize,
    /// Rows of luma samples.
    pub height: usize,
    /// Samples in a row of either chroma plane.
    pub chroma_width: usize,
    /// Rows of either chroma plane.
    pub chroma_height: usize,
    /// Where the luma plane starts.
    pub luma_offset: usize,
    /// Where the blue-difference plane starts.
    pub chroma_b_offset: usize,
    /// Where the red-difference plane starts.
    pub chroma_r_offset: usize,
    /// Where the alpha plane starts, if the picture has one.
    pub alpha_offset: Option<usize>,
}

impl PlaneLayout {
    /// Whether a plane of `width` by `height` samples at `offset` lies
    /// within `len` bytes.
    pub open spec fn plane_fits(offset: usize, width: usize, height: usize, len: nat) -> bool {
        offset + width * height <= len
    }

    /// Whether every plane lies within a buffer of `len` bytes.
    pub open spec fn fits(self, len: nat) -> bool {
        &&& Self::plane_fits(self.luma_offset, self.width, self.height, len)
        &&& Self::plane_fits(self.chroma_b_offset, self.chroma_width, self.chroma_height, len)
        &&& Self::plane_fits(self.chroma_r_offset, self.chroma_width, self.chroma_height, len)
        &&& self.alpha_offset matches Some(offset) ==> Self::plane_fits(
            offset,
            self.width,
            self.height,
            len,
        )
    }
}

/// A planar picture as a mathematical value.
pub struct VideoBufferView {
    pub data: Seq<u8>,
    pub layout: PlaneLayout,
}

impl VideoBufferView {
    /// Every plane lies within the buffer.
    pub open spec fn wf(self) -> bool {
        self.layout.fits(self.data.len())
    }

    /// The `width * height` bytes that start at `offset`.
    pub open spec fn plane(self, offset: usize, width: usize, height: usize) -> Seq<u8> {
        self.data.subrange(offset as int, offset + width * height)
    }

    /// The luma samples, row by row.
    pub open spec fn luma(self) -> Seq<u8> {
        self.plane(self.layout.luma_offset, self.layout.width, self.layout.height)
    }

    /// The blue-difference samples, row by row.
    pub open spec fn chroma_b(self) -> Seq<u8> {
        self.plane(
            self.layout.chroma_b_offset,
            self.layout.chroma_width,
            self.layout.chroma_height,
        )
    }

    /// The red-difference samples, row by row.
    pub open spec fn chroma_r(self) -> Seq<u8> {
        self.plane(
            self.layout.chroma_r_offset,
            self.layout.chroma_width,
            self.layout.chroma_height,
        )
    }

    /// The alpha samples, row by row; empty where the picture has none.
    pub open spec fn alpha(self) -> Seq<u8> {
        match self.layout.alpha_offset {
            Some(offset) => self.plane(offset, self.layout.width, self.layout.height),
            None => Seq::empty(),
        }
    }
}

/// A planar picture whose planes all lie within its buffer.
#[derive(Debug)]
pub struct VideoBuffer {
    data: Vec<u8>,
    layout: PlaneLayout,
}

impl View for VideoBuffer {
    type V = VideoBufferView;

    closed spec fn view(&self) -> VideoBufferView {
        VideoBufferView { data: self.data@, layout: self.layout }
    }
}

/// Whether a plane of `width` by `height` samples at `offset` lies within
/// `len` bytes.
fn plane_fits(offset: usize, width: usize, height: usize, len: usize) -> (fits: bool)
    ensures
        fits == PlaneLayout::plane_fits(offset, width, height, len as nat),
{
    match width.checked_mul(height) {
        Some(size) => match offset.checked_add(size) {
            Some(end) => end <= len,
            None => false,
        },
        None => {
            assert(width * height > usize::MAX);
            false
        },
    }
}

impl VideoBuffer {
    #[verifier::type_invariant]
    spec fn planes_fit(self) -> bool {
        self@.wf()
    }

    /// Takes a buffer and the layout of its planes; refuses a layout that
    /// reaches beyond the buffer.
    pub fn new(data: Vec<u8>, layout: PlaneLayout) -> (buffer: Option<VideoBuffer>)
        ensures
            buffer is Some <==> layout.fits(data@.len()),
            buffer matches Some(b) ==> b@ == (VideoBufferView { data: data@, layout }),
    {
        let len = data.len();
        let alpha_fits = match layout.alpha_offset {
            Some(offset) => plane_fits(offset, layout.width, layout.height, len),
            None => true,
        };
        if alpha_fits && plane_fits(layout.luma_offset, layout.width, layout.height, len)
            && plane_fits(layout.chroma_b_offset, layout.chroma_width, layout.chroma_height, len)
            && plane_fits(layout.chroma_r_offset, layout.chroma_width, layout.chroma_height, len) {
            Some(VideoBuffer { data, layout })
        } else {
            None
        }
    }

    /// The layout of the planes.
    pub fn layout(&self) -> (layout: PlaneLayout)
        ensures
            layout == self@.layout,
            self@.wf(),
    {
        proof {
            use_type_invariant(self);
        }
        self.layout
    }

    /// The whole buffer.
    pub fn data(&self) -> (data: &[u8])
        ensures
            data@ == self@.data,
    {
        self.data.as_slice()
    }

    fn plane(&self, offset: usize, width: usize, height: usize) -> (plane: &[u8])
        requires
            PlaneLayout::plane_fits(offset, width, height, self@.data.len()),
        ensures
            plane@ == self@.plane(offset, width, height),
    {
        let whole = self.data.as_slice();
        let len = whole.len();
        assert(0 <= width * height <= len) by (nonlinear_arith)
            requires
                offset + width * height <= len,
        ;
        &whole[offset..offset + width * height]
    }

    /// The luma samples, row by row.
    pub fn luma(&self) -> (plane: &[u8])
        ensures
            plane@ == self@.luma(),
            plane@.len() == self@.layout.width * self@.layout.height,
    {
        proof {
            use_type_invariant(self);
        }
        self.plane(self.layout.luma_offset, self.layout.width, self.layout.height)
    }

    /// The blue-difference samples, row by row.
    pub fn chroma_b(&self) -> (plane: &[u8])
        ensures
            plane@ == self@.chroma_b(),
            plane@.len() == self@.layout.chroma_width * self@.layout.chroma_height,
    {
        proof {
            use_type_invariant(self);
        }
        self.plane(
            self.layout.chroma_b_offset,
            self.layout.chroma_width,
            self.layout.chroma_height,
        )
    }

    /// The red-difference samples, row by row.
    pub fn chroma_r(&self) -> (plane: &[u8])
        ensures
            plane@ == self@.chroma_r(),
            plane@.len() == self@.layout.chroma_width * self@.layout.chroma_height,
    {
        proof {
            use_type_invariant(self);
        }
        self.plane(
            self.layout.chroma_r_offset,
            self.layout.chroma_width,
            self.layout.chroma_height,
        )
    }

    /// The alpha samples, row by row, if the picture has an alpha plane.
    pub fn alpha(&self) -> (plane: Option<&[u8]>)
        ensures
            plane is Some <==> self@.layout.alpha_offset is Some,
            plane matches Some(p) ==> p@ == self@.alpha() && p@.len() == self@.layout.width
                * self@.layout.height,
    {
        proof {
            use_type_invariant(self);
        }
        match self.layout.alpha_offset {
            Some(offset) => Some(self.plane(offset, self.layout.width, self.layout.height)),
            None => None,
        }
    }
}

} // verus!
