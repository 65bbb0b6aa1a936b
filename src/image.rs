use vstd::prelude::*;

use crate::format::DXGI_FORMAT;

verus! {

/// The descriptor of one sub-image: a plane that starts `offset` bytes into
/// its container's arena and spans `slice_pitch` bytes.
#[derive(Clone, Copy, Debug, PartialEq, Eq, Structural)]
pub struct RawImage {
    pub width: usize,
    pub height: usize,
    pub format: DXGI_FORMAT,
    pub row_pitch: usize,
    pub slice_pitch: usize,
    pub offset: usize,
}

/// A read-only view of one sub-image, borrowed from the container that made it.
pub struct Image<'a> {
    desc: RawImage,
    pixels: &'a [u8],
}

impl<'a> Image<'a> {
    #[verifier::type_invariant]
    spec fn inv(self) -> bool {
        self.pixels@.len() == self.desc.slice_pitch
    }

    /// The descriptor this view was made from.
    pub closed spec fn descriptor(&self) -> RawImage {
        self.desc
    }

    /// The bytes of the plane.
    pub closed spec fn pixels(&self) -> Seq<u8> {
        self.pixels@
    }

    pub(crate) fn new(desc: RawImage, pixels: &'a [u8]) -> (r: Image<'a>)
        requires
            pixels@.len() == desc.slice_pitch,
        ensures
            r.descriptor() == desc,
            r.pixels() == pixels@,
    {
        Image { desc, pixels }
    }

    /// The bytes of the plane: exactly `slice_pitch` of them.
    pub fn buffer(&self) -> (r: &'a [u8])
        ensures
            r@ == self.pixels(),
            r@.len() == self.descriptor().slice_pitch,
    {
        proof {
            use_type_invariant(self);
        }
        self.pixels
    }

    pub fn width(&self) -> (r: usize)
        ensures
            r == self.descriptor().width,
    {
        self.desc.width
    }

    pub fn height(&self) -> (r: usize)
        ensures
            r == self.descriptor().height,
    {
        self.desc.height
    }

    pub fn row_pitch(&self) -> (r: usize)
        ensures
            r == self.descriptor().row_pitch,
    {
        self.desc.row_pitch
    }

    pub fn slice_pitch(&self) -> (r: usize)
        ensures
            r == self.descriptor().slice_pitch,
    {
        self.desc.slice_pitch
    }

    /// The byte length of the plane, which is its slice pitch.
    pub fn size(&self) -> (r: usize)
        ensures
            r == self.descriptor().slice_pitch,
    {
        self.desc.slice_pitch
    }

    pub fn format(&self) -> (r: DXGI_FORMAT)
        ensures
            r == self.descriptor().format,
    {
        self.desc.format
    }
}

/// An owned byte buffer that holds an encoded image saved to memory.
pub struct Blob {
    buffer: Vec<u8>,
}

impl Blob {
    pub closed spec fn bytes(&self) -> Seq<u8> {
        self.buffer@
    }

    /// Takes ownership of `buffer`.
    pub fn new(buffer: Vec<u8>) -> (r: Blob)
        ensures
            r.bytes() == buffer@,
    {
        Blob { buffer }
    }

    pub fn buffer(&self) -> (r: &[u8])
        ensures
            r@ == self.bytes(),
    {
        self.buffer.as_slice()
    }

    pub fn len(&self) -> (r: usize)
        ensures
            r == self.bytes().len(),
    {
        self.buffer.len()
    }

    pub fn is_empty(&self) -> (r: bool)
        ensures
            r == (self.bytes().len() == 0),
    {
        self.buffer.len() == 0
    }
}

} // verus!
