use vstd::prelude::*;
use vstd::slice::{slice_subrange, slice_to_vec};

use crate::error::{
    fail, hresult, invalid_arg, succeeded, Error, Result, E_ARITHMETIC_OVERFLOW, E_FAIL,
    E_INVALIDARG, E_NOT_SUPPORTED, HRESULT,
};
use crate::format::{
    bits_per_pixel, is_compressed, is_palettized, is_planar, is_small_block, is_video,
    layout_matches, same_layout, spec_bits_per_pixel, spec_is_compressed, spec_is_palettized,
    spec_is_planar, spec_is_video, DXGI_FORMAT,
};
use crate::image::{Image, RawImage};
use crate::layout::{calculate_mip_levels, compute_pitch, mip_dim, pitch_of, resolve_mips};
use crate::metadata::{
    TexMetadata, TEX_DIMENSION, TEX_DIMENSION_TEXTURE1D, TEX_DIMENSION_TEXTURE2D,
    TEX_DIMENSION_TEXTURE3D,
};

verus! {

/// The number of depth slices in mip levels `0..mips` of a volume of depth `d`.
pub open spec fn depth_sum(d: nat, mips: nat) -> nat
    decreases mips,
{
    if mips == 0 {
        0
    } else {
        depth_sum(d, (mips - 1) as nat) + mip_dim(d, (mips - 1) as nat)
    }
}

/// Whether `m` declares a shape that a container can hold.
pub open spec fn metadata_ok(m: TexMetadata) -> bool {
    &&& m.width >= 1
    &&& m.height >= 1
    &&& m.depth >= 1
    &&& m.array_size >= 1
    &&& m.mip_levels >= 1
    &&& if m.dimension == TEX_DIMENSION_TEXTURE3D {
        m.array_size == 1
    } else {
        (m.dimension == TEX_DIMENSION_TEXTURE1D || m.dimension == TEX_DIMENSION_TEXTURE2D)
            && m.depth == 1
    }
}

/// The number of sub-images that `m` declares: one per mip level and array
/// item, and for a volume one per depth slice of each mip level.
pub open spec fn image_count(m: TexMetadata) -> nat {
    if m.dimension == TEX_DIMENSION_TEXTURE3D {
        depth_sum(m.depth as nat, m.mip_levels as nat)
    } else {
        (m.array_size * m.mip_levels) as nat
    }
}

/// Where sub-image (`mip`, `item`, `slice`) stands in the descriptor table,
/// or `None` when an index is out of the declared range.
pub open spec fn image_index(m: TexMetadata, mip: nat, item: nat, slice: nat) -> Option<nat> {
    if mip >= m.mip_levels {
        None
    } else if m.dimension == TEX_DIMENSION_TEXTURE3D {
        if item > 0 || slice >= mip_dim(m.depth as nat, mip) {
            None
        } else {
            Some((depth_sum(m.depth as nat, mip) + slice) as nat)
        }
    } else {
        if slice > 0 || item >= m.array_size {
            None
        } else {
            Some((item * m.mip_levels + mip) as nat)
        }
    }
}

/// Row pitch and slice pitch of mip level `m` of a `w` by `h` plane.
pub open spec fn mip_pitch(format: DXGI_FORMAT, w: nat, h: nat, m: nat) -> (nat, nat) {
    pitch_of(format, mip_dim(w, m), mip_dim(h, m))
}

/// Where mip level `m` starts inside one array item: the bytes of the levels
/// before it.
pub open spec fn mip_offset(format: DXGI_FORMAT, w: nat, h: nat, m: nat) -> nat
    decreases m,
{
    if m == 0 {
        0
    } else {
        mip_offset(format, w, h, (m - 1) as nat) + mip_pitch(format, w, h, (m - 1) as nat).1
    }
}

/// The arena size of an allocated container: `array` items of `mips` levels.
pub open spec fn planned_size(format: DXGI_FORMAT, w: nat, h: nat, array: nat, mips: nat) -> nat {
    array * mip_offset(format, w, h, mips)
}

/// The descriptor that allocation gives mip level `m` of array item `item`.
pub open spec fn planned_image(
    format: DXGI_FORMAT,
    w: nat,
    h: nat,
    mips: nat,
    item: nat,
    m: nat,
) -> RawImage {
    RawImage {
        width: mip_dim(w, m) as usize,
        height: mip_dim(h, m) as usize,
        format,
        row_pitch: mip_pitch(format, w, h, m).0 as usize,
        slice_pitch: mip_pitch(format, w, h, m).1 as usize,
        offset: (item * mip_offset(format, w, h, mips) + mip_offset(format, w, h, m)) as usize,
    }
}

/// The container that allocation gives: array items one after the other,
/// each with its mip levels in order, over a zero-filled arena.
pub open spec fn planned_view(
    format: DXGI_FORMAT,
    w: nat,
    h: nat,
    array: nat,
    mips: nat,
    dimension: TEX_DIMENSION,
) -> ScratchView {
    ScratchView {
        metadata: TexMetadata {
            width: w as usize,
            height: h as usize,
            depth: 1,
            array_size: array as usize,
            mip_levels: mips as usize,
            misc_flags: 0,
            misc_flags2: 0,
            format,
            dimension,
        },
        images: Seq::new(
            array * mips,
            |i: int|
                planned_image(
                    format,
                    w,
                    h,
                    mips,
                    (i / mips as int) as nat,
                    (i % mips as int) as nat,
                ),
        ),
        memory: Seq::new(planned_size(format, w, h, array, mips), |i: int| 0u8),
    }
}

/// What allocating a 1D or 2D container gives: the error, checked in this
/// order, or the container.
pub open spec fn allocation(
    format: DXGI_FORMAT,
    w: nat,
    h: nat,
    array: nat,
    mips: nat,
    dimension: TEX_DIMENSION,
) -> core::result::Result<ScratchView, Error> {
    if spec_bits_per_pixel(format) == 0 {
        Err(Error(E_INVALIDARG))
    } else if spec_is_planar(format) || spec_is_palettized(format) {
        Err(Error(E_NOT_SUPPORTED))
    } else if w == 0 || h == 0 || array == 0 || resolve_mips(w, h, mips) is None {
        Err(Error(E_INVALIDARG))
    } else if planned_size(format, w, h, array, resolve_mips(w, h, mips)->Some_0) > usize::MAX {
        Err(Error(E_ARITHMETIC_OVERFLOW))
    } else {
        Ok(planned_view(format, w, h, array, resolve_mips(w, h, mips)->Some_0, dimension))
    }
}


/// What allocating a 1D container of `size` pixels gives.
pub open spec fn allocation_1d(
    format: DXGI_FORMAT,
    size: nat,
    array: nat,
    mips: nat,
) -> core::result::Result<ScratchView, Error> {
    if spec_is_video(format) {
        Err(Error(E_NOT_SUPPORTED))
    } else {
        allocation(format, size, 1, array, mips, TEX_DIMENSION_TEXTURE1D)
    }
}

/// What allocating and then filling the arena with `data` gives: the
/// allocation's error, or `E_INVALIDARG` when `data` is not exactly as long
/// as the arena.
pub open spec fn filled(
    a: core::result::Result<ScratchView, Error>,
    data: Seq<u8>,
) -> core::result::Result<ScratchView, Error> {
    match a {
        Ok(v) => if data.len() == v.memory.len() {
            Ok(ScratchView { memory: data, ..v })
        } else {
            Err(Error(E_INVALIDARG))
        },
        Err(e) => Err(e),
    }
}

/// Whether container `r` is what allocation outcome `a` describes.
pub open spec fn outcome_matches(
    r: Result<ScratchImage>,
    a: core::result::Result<ScratchView, Error>,
) -> bool {
    match a {
        Ok(v) => r is Ok && r->Ok_0@ == v,
        Err(e) => r == Err::<ScratchImage, Error>(e),
    }
}

/// What a container holds: its metadata, its descriptor table and its arena.
pub ghost struct ScratchView {
    pub metadata: TexMetadata,
    pub images: Seq<RawImage>,
    pub memory: Seq<u8>,
}

impl ScratchView {
    /// The container's invariant: the table has one descriptor per declared
    /// sub-image, each in the container's format, starting inside the arena
    /// and ending within it.
    pub open spec fn wf(self) -> bool {
        &&& metadata_ok(self.metadata)
        &&& self.images.len() == image_count(self.metadata)
        &&& forall|i: int|
            0 <= i < self.images.len() ==> {
                &&& (#[trigger] self.images[i]).offset < self.memory.len()
                &&& self.images[i].offset + self.images[i].slice_pitch <= self.memory.len()
                &&& self.images[i].format == self.metadata.format
            }
    }

    /// The bytes of descriptor `i`.
    pub open spec fn pixels_of(self, i: int) -> Seq<u8> {
        self.memory.subrange(
            self.images[i].offset as int,
            self.images[i].offset + self.images[i].slice_pitch,
        )
    }
}

/// An image container: one pixel arena, exclusively owned, and a table of
/// sub-image descriptors that point into it.
#[derive(Debug)]
pub struct ScratchImage {
    metadata: TexMetadata,
    images: Vec<RawImage>,
    memory: Vec<u8>,
}

impl View for ScratchImage {
    type V = ScratchView;

    closed spec fn view(&self) -> ScratchView {
        ScratchView { metadata: self.metadata, images: self.images@, memory: self.memory@ }
    }
}

proof fn lemma_mip_offset_mono(format: DXGI_FORMAT, w: nat, h: nat, a: nat, b: nat)
    requires
        a <= b,
    ensures
        mip_offset(format, w, h, a) <= mip_offset(format, w, h, b),
    decreases b,
{
    if a < b {
        lemma_mip_offset_mono(format, w, h, a, (b - 1) as nat);
    }
}

proof fn lemma_row_within_slice(format: DXGI_FORMAT, w: nat, h: nat)
    requires
        h >= 1,
    ensures
        pitch_of(format, w, h).0 <= pitch_of(format, w, h).1,
{
    let p = pitch_of(format, w, h);
    if spec_is_compressed(format) {
        let nbw: nat = if (w + 3) / 4 > 1 { ((w + 3) / 4) as nat } else { 1 };
        let nbh: nat = if (h + 3) / 4 > 1 { ((h + 3) / 4) as nat } else { 1 };
        let block: nat = if is_small_block(format) { 8 } else { 16 };
        assert(nbw * block <= nbw * block * nbh) by (nonlinear_arith)
            requires
                nbh >= 1,
        ;
    } else {
        assert(p.0 <= p.0 * h) by (nonlinear_arith)
            requires
                h >= 1,
        ;
    }
}

proof fn lemma_pitch_pos(format: DXGI_FORMAT, w: nat, h: nat)
    requires
        w >= 1,
        h >= 1,
        spec_bits_per_pixel(format) != 0,
    ensures
        pitch_of(format, w, h).1 >= 1,
{
    let p = pitch_of(format, w, h);
    if spec_is_compressed(format) {
        let nbw: nat = if (w + 3) / 4 > 1 { ((w + 3) / 4) as nat } else { 1 };
        let nbh: nat = if (h + 3) / 4 > 1 { ((h + 3) / 4) as nat } else { 1 };
        let block: nat = if is_small_block(format) { 8 } else { 16 };
        assert(nbw * block * nbh >= 1) by (nonlinear_arith)
            requires
                nbw >= 1,
                nbh >= 1,
                block >= 8,
        ;
    } else {
        assert(p.0 >= 1) by (nonlinear_arith)
            requires
                p.0 == (w * spec_bits_per_pixel(format) + 7) / 8 || p.0 == ((w + 1) / 2) * 4 || p.0
                    == ((w + 1) / 2) * 8,
                w >= 1,
                spec_bits_per_pixel(format) >= 1,
        ;
        assert(p.1 >= 1) by (nonlinear_arith)
            requires
                p.1 == p.0 * h,
                p.0 >= 1,
                h >= 1,
        ;
    }
}

proof fn lemma_mip_dim_pos(d: nat, m: nat)
    requires
        d >= 1,
    ensures
        1 <= mip_dim(d, m) <= d,
    decreases m,
{
    if m > 0 {
        lemma_mip_dim_pos(d, (m - 1) as nat);
    }
}

proof fn lemma_depth_sum_mono(d: nat, a: nat, b: nat)
    requires
        a <= b,
    ensures
        depth_sum(d, a) <= depth_sum(d, b),
    decreases b,
{
    if a < b {
        lemma_depth_sum_mono(d, a, (b - 1) as nat);
    }
}

/// Counts the sub-images that `m` declares, or `None` when the count does not
/// fit in `usize`.
fn count_images(m: &TexMetadata) -> (r: Option<usize>)
    ensures
        match r {
            Some(n) => n == image_count(*m),
            None => image_count(*m) > usize::MAX,
        },
{
    if m.dimension == TEX_DIMENSION_TEXTURE3D {
        let mut total: usize = 0;
        let mut d: usize = m.depth;
        let mut level: usize = 0;
        while level < m.mip_levels
            invariant
                m.dimension == TEX_DIMENSION_TEXTURE3D,
                level <= m.mip_levels,
                total == depth_sum(m.depth as nat, level as nat),
                d == mip_dim(m.depth as nat, level as nat),
            decreases m.mip_levels - level,
        {
            match total.checked_add(d) {
                Some(t) => {
                    total = t;
                },
                None => {
                    proof {
                        assert(depth_sum(m.depth as nat, (level + 1) as nat) == total + d);
                        lemma_depth_sum_mono(
                            m.depth as nat,
                            (level + 1) as nat,
                            m.mip_levels as nat,
                        );
                    }
                    return None;
                },
            }
            if d > 1 {
                d = d / 2;
            }
            level = level + 1;
        }
        Some(total)
    } else {
        m.array_size.checked_mul(m.mip_levels)
    }
}

impl ScratchImage {
    #[verifier::type_invariant]
    spec fn inv(self) -> bool {
        self@.wf()
    }

    /// Takes ownership of a metadata record, a descriptor table and an arena,
    /// and checks that they form a valid container.
    pub fn from_parts(metadata: TexMetadata, images: Vec<RawImage>, memory: Vec<u8>) -> (r: Result<
        ScratchImage,
    >)
        ensures
            (ScratchView { metadata, images: images@, memory: memory@ }).wf() <==> r is Ok,
            match r {
                Ok(s) => s@ == (ScratchView { metadata, images: images@, memory: memory@ }),
                Err(e) => e == Error(E_INVALIDARG),
            },
    {
        let ok_shape = metadata.width >= 1 && metadata.height >= 1 && metadata.depth >= 1
            && metadata.array_size >= 1 && metadata.mip_levels >= 1 && if metadata.dimension
            == TEX_DIMENSION_TEXTURE3D {
            metadata.array_size == 1
        } else {
            (metadata.dimension == TEX_DIMENSION_TEXTURE1D || metadata.dimension
                == TEX_DIMENSION_TEXTURE2D) && metadata.depth == 1
        };
        if !ok_shape {
            return Err(invalid_arg());
        }
        match count_images(&metadata) {
            Some(n) => {
                if n != images.len() {
                    return Err(invalid_arg());
                }
            },
            None => {
                let len = images.len();
                assert(image_count(metadata) > len);
                return Err(invalid_arg());
            },
        }
        let mut i: usize = 0;
        while i < images.len()
            invariant
                0 <= i <= images@.len(),
                forall|j: int|
                    0 <= j < i ==> {
                        &&& (#[trigger] images@[j]).offset < memory@.len()
                        &&& images@[j].offset + images@[j].slice_pitch <= memory@.len()
                        &&& images@[j].format == metadata.format
                    },
            decreases images@.len() - i,
        {
            let desc = &images[i];
            if desc.offset >= memory.len() || desc.slice_pitch > memory.len() - desc.offset
                || desc.format != metadata.format {
                return Err(invalid_arg());
            }
            i = i + 1;
        }
        Ok(ScratchImage { metadata, images, memory })
    }

    /// The view of sub-image (`mip`, `item`, `slice`), or `None` when an
    /// index is out of the declared range.
    pub fn image(&self, mip: usize, item: usize, slice: usize) -> (r: Option<Image<'_>>)
        ensures
            match image_index(self@.metadata, mip as nat, item as nat, slice as nat) {
                Some(i) => match r {
                    Some(img) => img.descriptor() == self@.images[i as int] && img.pixels()
                        == self@.pixels_of(i as int),
                    None => false,
                },
                None => r is None,
            },
    {
        proof {
            use_type_invariant(self);
        }
        match self.index_of(mip, item, slice) {
            Some(i) => {
                let desc = self.images[i];
                let mlen = self.memory.len();
                proof {
                    assert(self@.images[i as int] == desc);
                    assert(desc.offset + desc.slice_pitch <= mlen);
                }
                let pixels = slice_subrange(
                    self.memory.as_slice(),
                    desc.offset,
                    desc.offset + desc.slice_pitch,
                );
                Some(Image::new(desc, pixels))
            },
            None => None,
        }
    }

    /// The view of the first sub-image, which every container has.
    pub fn image0(&self) -> (r: Image<'_>)
        ensures
            r.descriptor() == self@.images[0],
            r.pixels() == self@.pixels_of(0),
    {
        proof {
            use_type_invariant(self);
            assert(image_index(self@.metadata, 0, 0, 0) == Some(0nat)) by {
                lemma_mip_dim_pos(self@.metadata.depth as nat, 0);
            }
        }
        match self.image(0, 0, 0) {
            Some(img) => img,
            None => {
                proof {
                    assert(false);
                }
                Image::new(self.images[0], slice_subrange(self.memory.as_slice(), 0, 0))
            },
        }
    }

    /// The slice pitch of sub-image (`mip`, `item`, `slice`).
    pub fn image_size(&self, mip: usize, item: usize, slice: usize) -> (r: Option<usize>)
        ensures
            match image_index(self@.metadata, mip as nat, item as nat, slice as nat) {
                Some(i) => r == Some(self@.images[i as int].slice_pitch),
                None => r is None,
            },
    {
        match self.index_of(mip, item, slice) {
            Some(i) => {
                proof {
                    assert(self@.images[i as int] == self.images@[i as int]);
                }
                Some(self.images[i].slice_pitch)
            },
            None => None,
        }
    }

    /// The bytes of sub-image (`mip`, `item`, `slice`).
    pub fn image_buffer(&self, mip: usize, item: usize, slice: usize) -> (r: Option<&[u8]>)
        ensures
            match image_index(self@.metadata, mip as nat, item as nat, slice as nat) {
                Some(i) => match r {
                    Some(b) => b@ == self@.pixels_of(i as int),
                    None => false,
                },
                None => r is None,
            },
    {
        match self.image(mip, item, slice) {
            Some(img) => Some(img.buffer()),
            None => None,
        }
    }

    pub fn metadata(&self) -> (r: &TexMetadata)
        ensures
            *r == self@.metadata,
    {
        &self.metadata
    }

    pub fn format(&self) -> (r: DXGI_FORMAT)
        ensures
            r == self@.metadata.format,
    {
        self.metadata.format
    }

    pub fn width(&self) -> (r: usize)
        ensures
            r == self@.metadata.width,
    {
        self.metadata.width
    }

    pub fn height(&self) -> (r: usize)
        ensures
            r == self@.metadata.height,
    {
        self.metadata.height
    }

    pub fn array_size(&self) -> (r: usize)
        ensures
            r == self@.metadata.array_size,
    {
        self.metadata.array_size
    }

    pub fn mip_levels(&self) -> (r: usize)
        ensures
            r == self@.metadata.mip_levels,
    {
        self.metadata.mip_levels
    }

    /// The descriptor table, one entry per sub-image.
    pub fn images(&self) -> (r: &[RawImage])
        ensures
            r@ == self@.images,
    {
        self.images.as_slice()
    }

    pub fn num_images(&self) -> (r: usize)
        ensures
            r == self@.images.len(),
    {
        self.images.len()
    }

    /// The byte length of the arena.
    pub fn buffer_size(&self) -> (r: usize)
        ensures
            r == self@.memory.len(),
    {
        self.memory.len()
    }

    /// The whole arena.
    pub fn buffer(&self) -> (r: &[u8])
        ensures
            r@ == self@.memory,
    {
        self.memory.as_slice()
    }

    /// Whether the container's format is block-compressed.
    pub fn is_compressed(&self) -> (r: bool)
        ensures
            r == spec_is_compressed(self@.metadata.format),
    {
        is_compressed(self.metadata.format)
    }

    /// Overwrites the whole arena with `data`, which must have exactly the
    /// arena's length; on a mismatch nothing changes.
    pub fn copy_from_slice(&mut self, data: &[u8]) -> (r: Result<()>)
        ensures
            r is Ok <==> data@.len() == old(self)@.memory.len(),
            r is Ok ==> final(self)@ == (ScratchView { memory: data@, ..old(self)@ }),
            r is Err ==> final(self)@ == old(self)@ && r == Err::<(), Error>(Error(E_INVALIDARG)),
    {
        proof {
            use_type_invariant(&*self);
        }
        if self.memory.len() == data.len() {
            self.memory = slice_to_vec(data);
            Ok(())
        } else {
            Err(invalid_arg())
        }
    }

    /// Relabels the pixel data with `format` without touching it. This
    /// succeeds only where `format` lays its pixels out as the current format
    /// does; on failure nothing changes.
    pub fn override_format(&mut self, format: DXGI_FORMAT) -> (r: Result<()>)
        ensures
            r is Ok <==> same_layout(old(self)@.metadata.format, format),
            r is Ok ==> final(self)@ == (ScratchView {
                metadata: TexMetadata { format, ..old(self)@.metadata },
                images: old(self)@.images.map_values(|d: RawImage| RawImage { format, ..d }),
                memory: old(self)@.memory,
            }),
            r is Err ==> final(self)@ == old(self)@ && r == Err::<(), Error>(Error(E_FAIL)),
    {
        proof {
            use_type_invariant(&*self);
        }
        if !layout_matches(self.metadata.format, format) {
            return Err(fail());
        }
        let ghost old_images = self.images@;
        let mut images: Vec<RawImage> = Vec::new();
        let mut i: usize = 0;
        while i < self.images.len()
            invariant
                0 <= i <= self.images@.len(),
                self.images@ == old_images,
                images@ == old_images.subrange(0, i as int).map_values(
                    |d: RawImage| RawImage { format, ..d },
                ),
            decreases self.images@.len() - i,
        {
            let d = self.images[i];
            images.push(RawImage { format, ..d });
            i = i + 1;
            proof {
                assert(images@ =~= old_images.subrange(0, i as int).map_values(
                    |d: RawImage| RawImage { format, ..d },
                ));
            }
        }
        proof {
            assert(old_images.subrange(0, old_images.len() as int) =~= old_images);
        }
        let metadata = TexMetadata { format, ..self.metadata };
        let mut taken = ScratchImage::placeholder();
        core::mem::swap(self, &mut taken);
        let ScratchImage { metadata: _, images: _, memory } = taken;
        proof {
            assert forall|j: int| 0 <= j < images@.len() implies images@[j] == (RawImage {
                format,
                ..old_images[j]
            }) by {}
        }
        *self = ScratchImage { metadata, images, memory };
        Ok(())
    }

    /// Allocates a zero-filled 2D container (or array of them) of `format`,
    /// with the native library's layout; `mip_levels` 0 asks for the full
    /// mip chain.
    pub fn allocate(
        format: DXGI_FORMAT,
        width: usize,
        height: usize,
        array_size: usize,
        mip_levels: usize,
    ) -> (r: Result<ScratchImage>)
        ensures
            outcome_matches(
                r,
                allocation(
                    format,
                    width as nat,
                    height as nat,
                    array_size as nat,
                    mip_levels as nat,
                    TEX_DIMENSION_TEXTURE2D,
                ),
            ),
    {
        ScratchImage::allocate_with(format, width, height, array_size, mip_levels, TEX_DIMENSION_TEXTURE2D)
    }

    /// Allocates a zero-filled 1D container (or array of them) of `size`
    /// pixels; video formats are not supported.
    pub fn allocate_1d(format: DXGI_FORMAT, size: usize, array_size: usize, mip_levels: usize) -> (r:
        Result<ScratchImage>)
        ensures
            outcome_matches(
                r,
                allocation_1d(format, size as nat, array_size as nat, mip_levels as nat),
            ),
    {
        if is_video(format) {
            return Err(Error(E_NOT_SUPPORTED));
        }
        ScratchImage::allocate_with(format, size, 1, array_size, mip_levels, TEX_DIMENSION_TEXTURE1D)
    }

    /// Builds a 2D container from `data`, which must be exactly as long as
    /// the arena that allocation gives.
    pub fn new_2d(
        format: DXGI_FORMAT,
        width: usize,
        height: usize,
        array_size: usize,
        mipmaps: usize,
        data: &[u8],
    ) -> (r: Result<ScratchImage>)
        ensures
            outcome_matches(
                r,
                filled(
                    allocation(
                        format,
                        width as nat,
                        height as nat,
                        array_size as nat,
                        mipmaps as nat,
                        TEX_DIMENSION_TEXTURE2D,
                    ),
                    data@,
                ),
            ),
    {
        let mut scratch = ScratchImage::allocate(format, width, height, array_size, mipmaps)?;
        scratch.copy_from_slice(data)?;
        Ok(scratch)
    }

    /// Builds a 1D container of `size` pixels from `data`, which must be
    /// exactly as long as the arena that allocation gives.
    pub fn new_1d(
        format: DXGI_FORMAT,
        size: usize,
        array_size: usize,
        mipmaps: usize,
        data: &[u8],
    ) -> (r: Result<ScratchImage>)
        ensures
            outcome_matches(
                r,
                filled(allocation_1d(format, size as nat, array_size as nat, mipmaps as nat), data@),
            ),
    {
        let mut scratch = ScratchImage::allocate_1d(format, size, array_size, mipmaps)?;
        scratch.copy_from_slice(data)?;
        Ok(scratch)
    }

    /// Builds a container from `data`: 2D when `height` is above 1, else 1D.
    pub fn new(
        format: DXGI_FORMAT,
        width: usize,
        height: usize,
        array_size: usize,
        mipmaps: usize,
        data: &[u8],
    ) -> (r: Result<ScratchImage>)
        ensures
            height > 1 ==> outcome_matches(
                r,
                filled(
                    allocation(
                        format,
                        width as nat,
                        height as nat,
                        array_size as nat,
                        mipmaps as nat,
                        TEX_DIMENSION_TEXTURE2D,
                    ),
                    data@,
                ),
            ),
            height <= 1 ==> outcome_matches(
                r,
                filled(allocation_1d(format, width as nat, array_size as nat, mipmaps as nat), data@),
            ),
    {
        if height > 1 {
            ScratchImage::new_2d(format, width, height, array_size, mipmaps, data)
        } else {
            ScratchImage::new_1d(format, width, array_size, mipmaps, data)
        }
    }

    /// Allocates a zero-filled 1D or 2D container.
    fn allocate_with(
        format: DXGI_FORMAT,
        width: usize,
        height: usize,
        array_size: usize,
        mip_levels: usize,
        dimension: TEX_DIMENSION,
    ) -> (r: Result<ScratchImage>)
        requires
            dimension == TEX_DIMENSION_TEXTURE1D || dimension == TEX_DIMENSION_TEXTURE2D,
        ensures
            outcome_matches(
                r,
                allocation(
                    format,
                    width as nat,
                    height as nat,
                    array_size as nat,
                    mip_levels as nat,
                    dimension,
                ),
            ),
    {
        let ghost (fw, fh, fa) = (width as nat, height as nat, array_size as nat);
        if bits_per_pixel(format) == 0 {
            return Err(Error(E_INVALIDARG));
        }
        if is_planar(format) || is_palettized(format) {
            return Err(Error(E_NOT_SUPPORTED));
        }
        if width == 0 || height == 0 || array_size == 0 {
            return Err(Error(E_INVALIDARG));
        }
        let mips = match calculate_mip_levels(width, height, mip_levels) {
            Some(m) => m,
            None => {
                return Err(Error(E_INVALIDARG));
            },
        };
        let ghost fm = mips as nat;
        let ghost size = planned_size(format, fw, fh, fa, fm);
        proof {
            assert(resolve_mips(fw, fh, mip_levels as nat) == Some(fm));
            assert(mips >= 1) by {
                reveal_with_fuel(crate::layout::count_mips, 2);
            }
            assert(mip_offset(format, fw, fh, fm) <= size) by (nonlinear_arith)
                requires
                    size == fa * mip_offset(format, fw, fh, fm),
                    fa >= 1,
            ;
        }
        // One array item: each mip level's descriptor, offsets from the item's start.
        let mut table: Vec<RawImage> = Vec::new();
        let mut w = width;
        let mut h = height;
        let mut acc: usize = 0;
        let mut m: usize = 0;
        while m < mips
            invariant
                0 <= m <= mips,
                fw >= 1 && fh >= 1 && fa >= 1,
                fm == mips,
                fw == width && fh == height && fa == array_size,
                resolve_mips(fw, fh, mip_levels as nat) == Some(fm),
                size == planned_size(format, fw, fh, fa, fm),
                mip_offset(format, fw, fh, fm) <= size,
                spec_bits_per_pixel(format) != 0,
                !spec_is_planar(format) && !spec_is_palettized(format),
                table@.len() == m,
                forall|k: int|
                    0 <= k < m ==> #[trigger] table@[k] == planned_image(
                        format,
                        fw,
                        fh,
                        fm,
                        0,
                        k as nat,
                    ),
                acc == mip_offset(format, fw, fh, m as nat),
                w == mip_dim(fw, m as nat),
                h == mip_dim(fh, m as nat),
            decreases mips - m,
        {
            proof {
                lemma_mip_dim_pos(fw, m as nat);
                lemma_mip_dim_pos(fh, m as nat);
                lemma_row_within_slice(format, w as nat, h as nat);
                lemma_mip_offset_mono(format, fw, fh, (m + 1) as nat, fm);
            }
            let (row, slice) = match compute_pitch(format, w, h) {
                Ok(p) => p,
                Err(e) => {
                    proof {
                        assert(mip_pitch(format, fw, fh, m as nat) == pitch_of(
                            format,
                            w as nat,
                            h as nat,
                        ));
                        assert(mip_offset(format, fw, fh, (m + 1) as nat) == acc + mip_pitch(
                            format,
                            fw,
                            fh,
                            m as nat,
                        ).1);
                    }
                    return Err(e);
                },
            };
            let next = match acc.checked_add(slice) {
                Some(a) => a,
                None => {
                    proof {
                        assert(mip_offset(format, fw, fh, (m + 1) as nat) == acc + slice);
                    }
                    return Err(Error(E_ARITHMETIC_OVERFLOW));
                },
            };
            table.push(
                RawImage {
                    width: w,
                    height: h,
                    format,
                    row_pitch: row,
                    slice_pitch: slice,
                    offset: acc,
                },
            );
            acc = next;
            if w > 1 {
                w = w / 2;
            }
            if h > 1 {
                h = h / 2;
            }
            m = m + 1;
        }
        let item_size = acc;
        let total = match item_size.checked_mul(array_size) {
            Some(t) => t,
            None => {
                proof {
                    assert(size == item_size * array_size) by (nonlinear_arith)
                        requires
                            size == fa * item_size,
                            fa == array_size,
                    ;
                }
                return Err(Error(E_ARITHMETIC_OVERFLOW));
            },
        };
        proof {
            assert(total == size) by (nonlinear_arith)
                requires
                    size == fa * item_size,
                    fa == array_size,
                    total == item_size * array_size,
            ;
        }
        let mut images: Vec<RawImage> = Vec::new();
        let mut item: usize = 0;
        while item < array_size
            invariant
                0 <= item <= array_size,
                fa == array_size,
                fm == mips,
                mips >= 1,
                table@.len() == mips,
                forall|k: int|
                    0 <= k < mips ==> #[trigger] table@[k] == planned_image(
                        format,
                        fw,
                        fh,
                        fm,
                        0,
                        k as nat,
                    ),
                item_size == mip_offset(format, fw, fh, fm),
                total == fa * item_size,
                images@.len() == item * mips,
                forall|j: int|
                    0 <= j < images@.len() ==> #[trigger] images@[j] == planned_image(
                        format,
                        fw,
                        fh,
                        fm,
                        (j / mips as int) as nat,
                        (j % mips as int) as nat,
                    ),
            decreases array_size - item,
        {
            let mut k: usize = 0;
            while k < mips
                invariant
                    0 <= k <= mips,
                    item < array_size,
                    fa == array_size,
                    fm == mips,
                    mips >= 1,
                    table@.len() == mips,
                    forall|k2: int|
                        0 <= k2 < mips ==> #[trigger] table@[k2] == planned_image(
                            format,
                            fw,
                            fh,
                            fm,
                            0,
                            k2 as nat,
                        ),
                    item_size == mip_offset(format, fw, fh, fm),
                    total == fa * item_size,
                    images@.len() == item * mips + k,
                    forall|j: int|
                        0 <= j < images@.len() ==> #[trigger] images@[j] == planned_image(
                            format,
                            fw,
                            fh,
                            fm,
                            (j / mips as int) as nat,
                            (j % mips as int) as nat,
                        ),
                decreases mips - k,
            {
                let d = table[k];
                proof {
                    lemma_mip_offset_mono(format, fw, fh, k as nat, fm);
                    assert(item * item_size + d.offset <= total) by (nonlinear_arith)
                        requires
                            d.offset <= item_size,
                            item < fa,
                            total == fa * item_size,
                    ;
                    vstd::arithmetic::div_mod::lemma_fundamental_div_mod_converse(
                        (item * mips + k) as int,
                        mips as int,
                        item as int,
                        k as int,
                    );
                }
                images.push(RawImage { offset: item * item_size + d.offset, ..d });
                k = k + 1;
            }
            assert(images@.len() == (item + 1) * mips) by (nonlinear_arith)
                requires
                    images@.len() == item * mips + mips,
            ;
            item = item + 1;
        }
        let memory: Vec<u8> = vec![0u8; total];
        let metadata = TexMetadata {
            width,
            height,
            depth: 1,
            array_size,
            mip_levels: mips,
            misc_flags: 0,
            misc_flags2: 0,
            format,
            dimension,
        };
        proof {
            let v = planned_view(format, fw, fh, fa, fm, dimension);
            assert(images@ =~= v.images);
            assert(memory@ =~= v.memory);
            assert forall|j: int| 0 <= j < images@.len() implies (#[trigger] images@[j]).offset
                < memory@.len() && images@[j].offset + images@[j].slice_pitch <= memory@.len() by {
                let it = j / mips as int;
                let mm = j % mips as int;
                assert(0 <= it < fa && 0 <= mm < mips) by {
                    vstd::arithmetic::div_mod::lemma_div_pos_is_pos(j, mips as int);
                    vstd::arithmetic::div_mod::lemma_fundamental_div_mod(j, mips as int);
                    assert(j < fa * mips);
                    if it >= fa {
                        assert(it * mips >= fa * mips) by (nonlinear_arith)
                            requires
                                it >= fa,
                                mips >= 1,
                        ;
                    }
                };
                lemma_mip_offset_mono(format, fw, fh, (mm + 1) as nat, fm);
                assert(mip_offset(format, fw, fh, (mm + 1) as nat) == mip_offset(
                    format,
                    fw,
                    fh,
                    mm as nat,
                ) + mip_pitch(format, fw, fh, mm as nat).1);
                assert(table@[mm] == planned_image(format, fw, fh, fm, 0, mm as nat));
                lemma_mip_dim_pos(fw, mm as nat);
                lemma_mip_dim_pos(fh, mm as nat);
                lemma_pitch_pos(format, mip_dim(fw, mm as nat), mip_dim(fh, mm as nat));
                assert(it * item_size + item_size <= total) by (nonlinear_arith)
                    requires
                        0 <= it < fa,
                        total == fa * item_size,
                ;
            }
        }
        Ok(ScratchImage { metadata, images, memory })
    }

    /// A one-pixel container with a one-byte arena and an empty sub-image.
    fn placeholder() -> (r: ScratchImage) {
        let metadata = TexMetadata {
            width: 1,
            height: 1,
            depth: 1,
            array_size: 1,
            mip_levels: 1,
            misc_flags: 0,
            misc_flags2: 0,
            format: 0,
            dimension: TEX_DIMENSION_TEXTURE2D,
        };
        let desc = RawImage {
            width: 1,
            height: 1,
            format: 0,
            row_pitch: 0,
            slice_pitch: 0,
            offset: 0,
        };
        let images: Vec<RawImage> = vec![desc];
        let memory: Vec<u8> = vec![0u8];
        ScratchImage { metadata, images, memory }
    }

    /// Takes the output of a native operation: on a failure status the
    /// error carries the status verbatim and the parts are dropped; on
    /// success the parts must form a valid container.
    pub fn from_status(
        hr: HRESULT,
        metadata: TexMetadata,
        images: Vec<RawImage>,
        memory: Vec<u8>,
    ) -> (r: Result<ScratchImage>)
        ensures
            !succeeded(hr) ==> r == Err::<ScratchImage, Error>(Error(hr)),
            succeeded(hr) ==> {
                &&& (ScratchView { metadata, images: images@, memory: memory@ }).wf() <==> r is Ok
                &&& match r {
                    Ok(s) => s@ == (ScratchView { metadata, images: images@, memory: memory@ }),
                    Err(e) => e == Error(E_INVALIDARG),
                }
            },
    {
        hresult(hr)?;
        ScratchImage::from_parts(metadata, images, memory)
    }

    /// Finds sub-image (`mip`, `item`, `slice`) in the descriptor table.
    fn index_of(&self, mip: usize, item: usize, slice: usize) -> (r: Option<usize>)
        ensures
            match image_index(self@.metadata, mip as nat, item as nat, slice as nat) {
                Some(i) => r == Some(i as usize) && i < self@.images.len() <= usize::MAX,
                None => r is None,
            },
    {
        proof {
            use_type_invariant(self);
        }
        let m = &self.metadata;
        let count = self.images.len();
        if mip >= m.mip_levels {
            return None;
        }
        if m.dimension == TEX_DIMENSION_TEXTURE3D {
            if item > 0 {
                return None;
            }
            let mut index: usize = 0;
            let mut d: usize = m.depth;
            let mut level: usize = 0;
            proof {
                lemma_depth_sum_mono(m.depth as nat, mip as nat, m.mip_levels as nat);
            }
            while level < mip
                invariant
                    level <= mip < m.mip_levels,
                    index == depth_sum(m.depth as nat, level as nat),
                    d == mip_dim(m.depth as nat, level as nat),
                    depth_sum(m.depth as nat, mip as nat) <= count,
                    count == self@.images.len(),
                    m.depth >= 1,
                decreases mip - level,
            {
                proof {
                    lemma_depth_sum_mono(m.depth as nat, (level + 1) as nat, mip as nat);
                    assert(depth_sum(m.depth as nat, (level + 1) as nat) == index + d);
                    assert(self@.images.len() <= usize::MAX);
                }
                index = index + d;
                if d > 1 {
                    d = d / 2;
                }
                level = level + 1;
            }
            if slice >= d {
                return None;
            }
            proof {
                lemma_mip_dim_pos(m.depth as nat, mip as nat);
                lemma_depth_sum_mono(m.depth as nat, (mip + 1) as nat, m.mip_levels as nat);
            }
            Some(index + slice)
        } else {
            if slice > 0 || item >= m.array_size {
                return None;
            }
            proof {
                assert(item * m.mip_levels + mip < m.array_size * m.mip_levels) by (nonlinear_arith)
                    requires
                        item < m.array_size,
                        mip < m.mip_levels,
                ;
            }
            Some(item * m.mip_levels + mip)
        }
    }
}

impl Clone for ScratchImage {
    /// A second container with its own arena, holding the same metadata,
    /// descriptors and bytes.
    fn clone(&self) -> (r: ScratchImage)
        ensures
            r@ == self@,
    {
        proof {
            use_type_invariant(self);
        }
        let images = slice_to_vec(self.images.as_slice());
        let memory = slice_to_vec(self.memory.as_slice());
        ScratchImage { metadata: self.metadata, images, memory }
    }
}

/// The arena size that allocating a 2D container would give, or the
/// allocation's error.
pub fn expected_buffer(
    format: DXGI_FORMAT,
    width: usize,
    height: usize,
    array_size: usize,
    mipmaps: usize,
) -> (r: Result<usize>)
    ensures
        match allocation(
            format,
            width as nat,
            height as nat,
            array_size as nat,
            mipmaps as nat,
            TEX_DIMENSION_TEXTURE2D,
        ) {
            Ok(v) => r == Ok::<usize, Error>(v.memory.len() as usize),
            Err(e) => r == Err::<usize, Error>(e),
        },
{
    let scratch = ScratchImage::allocate(format, width, height, array_size, mipmaps)?;
    Ok(scratch.buffer_size())
}

/// Building a container from a buffer whose length differs from the arena's
/// by any amount fails with `E_INVALIDARG`, and gives no container.
pub proof fn lemma_length_mismatch_rejected(
    format: DXGI_FORMAT,
    width: nat,
    height: nat,
    array_size: nat,
    mipmaps: nat,
    dimension: TEX_DIMENSION,
    data: Seq<u8>,
)
    requires
        allocation(format, width, height, array_size, mipmaps, dimension) is Ok,
        data.len() != allocation(
            format,
            width,
            height,
            array_size,
            mipmaps,
            dimension,
        )->Ok_0.memory.len(),
    ensures
        filled(allocation(format, width, height, array_size, mipmaps, dimension), data) == Err::<
            ScratchView,
            Error,
        >(Error(E_INVALIDARG)),
{
}

/// An index at or beyond the declared count of its axis names no sub-image:
/// a mip level beyond the chain, an array item beyond the array (or any item
/// but the first of a volume), a depth slice beyond that level's depth (or
/// any slice but the first of a 1D or 2D texture).
pub proof fn lemma_out_of_range_is_none(v: ScratchView, mip: nat, item: nat, slice: nat)
    requires
        v.wf(),
        mip >= v.metadata.mip_levels || item >= v.metadata.array_size || (
        v.metadata.dimension == TEX_DIMENSION_TEXTURE3D && slice >= mip_dim(
            v.metadata.depth as nat,
            mip,
        )) || (v.metadata.dimension != TEX_DIMENSION_TEXTURE3D && slice >= v.metadata.depth),
    ensures
        image_index(v.metadata, mip, item, slice) is None,
{
}

} // verus!
