use vstd::prelude::*;

use crate::format::{DXGI_FORMAT, DXGI_FORMAT_UNKNOWN};

verus! {

/// How many axes a texture has, as the native library numbers them.
pub type TEX_DIMENSION = u32;

pub const TEX_DIMENSION_TEXTURE1D: TEX_DIMENSION = 2;
pub const TEX_DIMENSION_TEXTURE2D: TEX_DIMENSION = 3;
pub const TEX_DIMENSION_TEXTURE3D: TEX_DIMENSION = 4;

/// Flag in `misc_flags`: the array holds the faces of cube maps.
pub const TEX_MISC_TEXTURECUBE: u32 = 0x4;

/// What a container declares of its pixel data, without the data.
#[derive(Clone, Copy, Debug, PartialEq, Eq, Structural, Hash)]
pub struct TexMetadata {
    pub width: usize,
    pub height: usize,
    pub depth: usize,
    pub array_size: usize,
    pub mip_levels: usize,
    pub misc_flags: u32,
    pub misc_flags2: u32,
    pub format: DXGI_FORMAT,
    pub dimension: TEX_DIMENSION,
}

impl Default for TexMetadata {
    fn default() -> (r: TexMetadata)
        ensures
            r == (TexMetadata {
                width: 0,
                height: 0,
                depth: 0,
                array_size: 0,
                mip_levels: 0,
                misc_flags: 0,
                misc_flags2: 0,
                format: DXGI_FORMAT_UNKNOWN,
                dimension: 0,
            }),
    {
        TexMetadata {
            width: 0,
            height: 0,
            depth: 0,
            array_size: 0,
            mip_levels: 0,
            misc_flags: 0,
            misc_flags2: 0,
            format: DXGI_FORMAT_UNKNOWN,
            dimension: 0,
        }
    }
}

} // verus!
