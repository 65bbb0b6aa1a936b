use vstd::prelude::*;

verus! {

/// Filtering options for resizing, conversion and mipmap generation.
/// The native library defines the bits; 0 asks for its defaults.
#[derive(Clone, Copy, Debug, PartialEq, Eq, Structural, Hash)]
pub struct TEX_FILTER_FLAGS(pub u32);

impl Default for TEX_FILTER_FLAGS {
    fn default() -> (r: TEX_FILTER_FLAGS)
        ensures
            r.0 == 0,
    {
        TEX_FILTER_FLAGS(0)
    }
}

/// Options for block compression.
/// The native library defines the bits; 0 asks for its defaults.
#[derive(Clone, Copy, Debug, PartialEq, Eq, Structural, Hash)]
pub struct TEX_COMPRESS_FLAGS(pub u32);

impl Default for TEX_COMPRESS_FLAGS {
    fn default() -> (r: TEX_COMPRESS_FLAGS)
        ensures
            r.0 == 0,
    {
        TEX_COMPRESS_FLAGS(0)
    }
}

/// Options for premultiplying alpha.
/// The native library defines the bits; 0 asks for its defaults.
#[derive(Clone, Copy, Debug, PartialEq, Eq, Structural, Hash)]
pub struct TEX_PMALPHA_FLAGS(pub u32);

impl Default for TEX_PMALPHA_FLAGS {
    fn default() -> (r: TEX_PMALPHA_FLAGS)
        ensures
            r.0 == 0,
    {
        TEX_PMALPHA_FLAGS(0)
    }
}

/// Which flip or rotation to apply.
/// The native library defines the bits; 0 asks for its defaults.
#[derive(Clone, Copy, Debug, PartialEq, Eq, Structural, Hash)]
pub struct TEX_FR_FLAGS(pub u32);

impl Default for TEX_FR_FLAGS {
    fn default() -> (r: TEX_FR_FLAGS)
        ensures
            r.0 == 0,
    {
        TEX_FR_FLAGS(0)
    }
}

/// Options for reading and writing DDS files.
/// The native library defines the bits; 0 asks for its defaults.
#[derive(Clone, Copy, Debug, PartialEq, Eq, Structural, Hash)]
pub struct DDS_FLAGS(pub u32);

impl Default for DDS_FLAGS {
    fn default() -> (r: DDS_FLAGS)
        ensures
            r.0 == 0,
    {
        DDS_FLAGS(0)
    }
}

/// Options for reading and writing TGA files.
/// The native library defines the bits; 0 asks for its defaults.
#[derive(Clone, Copy, Debug, PartialEq, Eq, Structural, Hash)]
pub struct TGA_FLAGS(pub u32);

impl Default for TGA_FLAGS {
    fn default() -> (r: TGA_FLAGS)
        ensures
            r.0 == 0,
    {
        TGA_FLAGS(0)
    }
}

/// Options for reading and writing files through the platform codecs.
/// The native library defines the bits; 0 asks for its defaults.
#[derive(Clone, Copy, Debug, PartialEq, Eq, Structural, Hash)]
pub struct WIC_FLAGS(pub u32);

impl Default for WIC_FLAGS {
    fn default() -> (r: WIC_FLAGS)
        ensures
            r.0 == 0,
    {
        WIC_FLAGS(0)
    }
}

} // verus!
