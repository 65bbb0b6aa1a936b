use vstd::prelude::*;

verus! {

/// A pixel format identifier, as the native library numbers them.
pub type DXGI_FORMAT = u32;

pub const DXGI_FORMAT_UNKNOWN: DXGI_FORMAT = 0;
pub const DXGI_FORMAT_R32G32B32A32_FLOAT: DXGI_FORMAT = 2;
pub const DXGI_FORMAT_R16G16B16A16_FLOAT: DXGI_FORMAT = 10;
pub const DXGI_FORMAT_R8G8B8A8_UNORM: DXGI_FORMAT = 28;
pub const DXGI_FORMAT_R8G8B8A8_UNORM_SRGB: DXGI_FORMAT = 29;
pub const DXGI_FORMAT_R32_FLOAT: DXGI_FORMAT = 41;
pub const DXGI_FORMAT_R8_UNORM: DXGI_FORMAT = 61;
pub const DXGI_FORMAT_R1_UNORM: DXGI_FORMAT = 66;
pub const DXGI_FORMAT_R8G8_B8G8_UNORM: DXGI_FORMAT = 68;
pub const DXGI_FORMAT_G8R8_G8B8_UNORM: DXGI_FORMAT = 69;
pub const DXGI_FORMAT_BC1_TYPELESS: DXGI_FORMAT = 70;
pub const DXGI_FORMAT_BC1_UNORM: DXGI_FORMAT = 71;
pub const DXGI_FORMAT_BC1_UNORM_SRGB: DXGI_FORMAT = 72;
pub const DXGI_FORMAT_BC2_UNORM: DXGI_FORMAT = 74;
pub const DXGI_FORMAT_BC3_UNORM: DXGI_FORMAT = 77;
pub const DXGI_FORMAT_BC4_UNORM: DXGI_FORMAT = 80;
pub const DXGI_FORMAT_BC5_SNORM: DXGI_FORMAT = 84;
pub const DXGI_FORMAT_B5G6R5_UNORM: DXGI_FORMAT = 85;
pub const DXGI_FORMAT_B8G8R8A8_UNORM: DXGI_FORMAT = 87;
pub const DXGI_FORMAT_BC6H_TYPELESS: DXGI_FORMAT = 94;
pub const DXGI_FORMAT_BC6H_UF16: DXGI_FORMAT = 95;
pub const DXGI_FORMAT_BC6H_SF16: DXGI_FORMAT = 96;
pub const DXGI_FORMAT_BC7_TYPELESS: DXGI_FORMAT = 97;
pub const DXGI_FORMAT_BC7_UNORM: DXGI_FORMAT = 98;
pub const DXGI_FORMAT_BC7_UNORM_SRGB: DXGI_FORMAT = 99;
pub const DXGI_FORMAT_NV12: DXGI_FORMAT = 103;
pub const DXGI_FORMAT_YUY2: DXGI_FORMAT = 107;
pub const DXGI_FORMAT_Y210: DXGI_FORMAT = 108;
pub const DXGI_FORMAT_Y216: DXGI_FORMAT = 109;
pub const DXGI_FORMAT_AI44: DXGI_FORMAT = 111;
pub const DXGI_FORMAT_P8: DXGI_FORMAT = 113;
pub const DXGI_FORMAT_A8P8: DXGI_FORMAT = 114;

/// Bits that one pixel takes in `format`, 0 for a format without a size.
pub open spec fn spec_bits_per_pixel(format: DXGI_FORMAT) -> nat {
    if 1 <= format <= 4 {
        128
    } else if 5 <= format <= 8 {
        96
    } else if 9 <= format <= 22 {
        64
    } else if 23 <= format <= 47 {
        32
    } else if 48 <= format <= 59 {
        16
    } else if 60 <= format <= 65 {
        8
    } else if format == 66 {
        1
    } else if 67 <= format <= 69 {
        32
    } else if 70 <= format <= 72 || 79 <= format <= 81 {
        4
    } else if 73 <= format <= 78 || 82 <= format <= 84 {
        8
    } else if 85 <= format <= 86 {
        16
    } else if 87 <= format <= 93 {
        32
    } else if 94 <= format <= 99 {
        8
    } else if 100 <= format <= 101 {
        32
    } else if format == 102 {
        64
    } else if format == 103 || format == 106 || format == 110 {
        12
    } else if 104 <= format <= 105 || format == 132 {
        24
    } else if format == 107 {
        32
    } else if 108 <= format <= 109 {
        64
    } else if 111 <= format <= 113 {
        8
    } else if 114 <= format <= 115 || 130 <= format <= 131 || format == 191 {
        16
    } else {
        0
    }
}

/// Whether `format` is block-compressed (BC1 to BC7).
pub open spec fn spec_is_compressed(format: DXGI_FORMAT) -> bool {
    70 <= format <= 84 || 94 <= format <= 99
}

/// Whether `format` is compressed in blocks of 8 bytes (BC1, BC4); the
/// other block-compressed formats use blocks of 16 bytes.
pub open spec fn is_small_block(format: DXGI_FORMAT) -> bool {
    70 <= format <= 72 || 79 <= format <= 81
}

/// Whether `format` packs two pixels of 4:2:2 video into one unit.
pub open spec fn spec_is_packed(format: DXGI_FORMAT) -> bool {
    format == 68 || format == 69 || 107 <= format <= 109
}

/// Whether `format` stores its planes one after the other.
pub open spec fn spec_is_planar(format: DXGI_FORMAT) -> bool {
    103 <= format <= 106 || format == 110 || 130 <= format <= 132
}

/// Whether `format` is a video format, which a 1D texture cannot have.
pub open spec fn spec_is_video(format: DXGI_FORMAT) -> bool {
    100 <= format <= 114 || 130 <= format <= 132
}

/// Whether `format` indexes a palette.
pub open spec fn spec_is_palettized(format: DXGI_FORMAT) -> bool {
    111 <= format <= 114
}

/// Bits that one pixel takes in `format`, 0 for a format without a size.
pub fn bits_per_pixel(format: DXGI_FORMAT) -> (r: usize)
    ensures
        r == spec_bits_per_pixel(format),
{
    if 1 <= format && format <= 4 {
        128
    } else if 5 <= format && format <= 8 {
        96
    } else if 9 <= format && format <= 22 {
        64
    } else if 23 <= format && format <= 47 {
        32
    } else if 48 <= format && format <= 59 {
        16
    } else if 60 <= format && format <= 65 {
        8
    } else if format == 66 {
        1
    } else if 67 <= format && format <= 69 {
        32
    } else if (70 <= format && format <= 72) || (79 <= format && format <= 81) {
        4
    } else if (73 <= format && format <= 78) || (82 <= format && format <= 84) {
        8
    } else if 85 <= format && format <= 86 {
        16
    } else if 87 <= format && format <= 93 {
        32
    } else if 94 <= format && format <= 99 {
        8
    } else if 100 <= format && format <= 101 {
        32
    } else if format == 102 {
        64
    } else if format == 103 || format == 106 || format == 110 {
        12
    } else if (104 <= format && format <= 105) || format == 132 {
        24
    } else if format == 107 {
        32
    } else if 108 <= format && format <= 109 {
        64
    } else if 111 <= format && format <= 113 {
        8
    } else if (114 <= format && format <= 115) || (130 <= format && format <= 131) || format
        == 191 {
        16
    } else {
        0
    }
}

/// Whether `format` is block-compressed.
pub fn is_compressed(format: DXGI_FORMAT) -> (r: bool)
    ensures
        r == spec_is_compressed(format),
{
    (70 <= format && format <= 84) || (94 <= format && format <= 99)
}

/// Whether `format` packs two pixels of 4:2:2 video into one unit.
pub fn is_packed(format: DXGI_FORMAT) -> (r: bool)
    ensures
        r == spec_is_packed(format),
{
    format == 68 || format == 69 || (107 <= format && format <= 109)
}

/// Whether `format` stores its planes one after the other.
pub fn is_planar(format: DXGI_FORMAT) -> (r: bool)
    ensures
        r == spec_is_planar(format),
{
    (103 <= format && format <= 106) || format == 110 || (130 <= format && format <= 132)
}

/// Whether `format` is a video format, which a 1D texture cannot have.
pub fn is_video(format: DXGI_FORMAT) -> (r: bool)
    ensures
        r == spec_is_video(format),
{
    (100 <= format && format <= 114) || (130 <= format && format <= 132)
}

/// Whether `format` indexes a palette.
pub fn is_palettized(format: DXGI_FORMAT) -> (r: bool)
    ensures
        r == spec_is_palettized(format),
{
    111 <= format && format <= 114
}

/// Whether pixels of `a` and of `b` take the same bytes in the same places,
/// so that data of one can be relabelled as the other.
pub open spec fn same_layout(a: DXGI_FORMAT, b: DXGI_FORMAT) -> bool {
    &&& spec_bits_per_pixel(b) != 0
    &&& !spec_is_planar(b)
    &&& !spec_is_palettized(b)
    &&& spec_bits_per_pixel(a) == spec_bits_per_pixel(b)
    &&& spec_is_compressed(a) == spec_is_compressed(b)
    &&& spec_is_packed(a) == spec_is_packed(b)
}

/// Whether data of format `a` can be relabelled as format `b`.
pub fn layout_matches(a: DXGI_FORMAT, b: DXGI_FORMAT) -> (r: bool)
    ensures
        r == same_layout(a, b),
{
    bits_per_pixel(b) != 0 && !is_planar(b) && !is_palettized(b) && bits_per_pixel(a)
        == bits_per_pixel(b) && is_compressed(a) == is_compressed(b) && is_packed(a) == is_packed(
        b,
    )
}

/// The formats whose compression a hardware device can take over.
pub open spec fn spec_should_accel(format: DXGI_FORMAT) -> bool {
    94 <= format <= 99
}

/// Whether compressing to `format` is routed to a hardware device (BC6H, BC7).
pub fn should_accel(format: DXGI_FORMAT) -> (r: bool)
    ensures
        r == spec_should_accel(format),
{
    let hw_formats: [DXGI_FORMAT; 6] = [
        DXGI_FORMAT_BC6H_TYPELESS,
        DXGI_FORMAT_BC6H_UF16,
        DXGI_FORMAT_BC6H_SF16,
        DXGI_FORMAT_BC7_TYPELESS,
        DXGI_FORMAT_BC7_UNORM,
        DXGI_FORMAT_BC7_UNORM_SRGB,
    ];
    let mut i: usize = 0;
    while i < 6
        invariant
            0 <= i <= 6,
            hw_formats@ == seq![94u32, 95u32, 96u32, 97u32, 98u32, 99u32],
            forall|j: int| 0 <= j < i ==> hw_formats@[j] != format,
        decreases 6 - i,
    {
        if hw_formats[i] == format {
            return true;
        }
        i = i + 1;
    }
    false
}

} // verus!
