use vstd::prelude::*;

use crate::error::{invalid_arg, Error, Result, E_INVALIDARG};

verus! {

/// The image containers that the platform codec library writes.
#[derive(Clone, Copy, Debug, PartialEq, Eq, Structural, Hash)]
pub enum WICCodecs {
    WIC_CODEC_BMP,
    WIC_CODEC_JPEG,
    WIC_CODEC_PNG,
    WIC_CODEC_TIFF,
    WIC_CODEC_GIF,
    WIC_CODEC_WMP,
    WIC_CODEC_ICO,
    WIC_CODEC_HEIF,
}

/// The codec that reads and writes a file, chosen by its extension.
#[derive(Clone, Copy, Debug, PartialEq, Eq, Structural, Hash)]
pub enum FileCodec {
    Dds,
    Tga,
    Hdr,
    Exr,
    Wic(WICCodecs),
}

/// Whether `s` is the lower-case ASCII word `word`, ignoring ASCII case.
pub open spec fn ascii_ieq(s: Seq<char>, word: Seq<char>) -> bool {
    &&& s.len() == word.len()
    &&& forall|i: int|
        0 <= i < s.len() ==> #[trigger] s[i] == word[i] || ('a' <= word[i] <= 'z' && s[i] as u32 + 32
            == word[i] as u32)
}

/// Compares `s` with the lower-case ASCII word `word`, ignoring ASCII case.
fn eq_ignore_case(s: &str, word: &str) -> (r: bool)
    ensures
        r == ascii_ieq(s@, word@),
{
    let n = s.unicode_len();
    if n != word.unicode_len() {
        return false;
    }
    let mut i: usize = 0;
    while i < n
        invariant
            0 <= i <= n,
            n == s@.len(),
            n == word@.len(),
            forall|j: int|
                0 <= j < i ==> #[trigger] s@[j] == word@[j] || ('a' <= word@[j] <= 'z' && s@[j] as u32
                    + 32 == word@[j] as u32),
        decreases n - i,
    {
        let c = s.get_char(i);
        let w = word.get_char(i);
        if !(c == w || ('a' <= w && w <= 'z' && (c as u32) + 32 == w as u32)) {
            return false;
        }
        i = i + 1;
    }
    true
}

/// The platform codec for a file extension, ignoring ASCII case.
pub open spec fn spec_wic_codec(ext: Seq<char>) -> Option<WICCodecs> {
    if ascii_ieq(ext, "bmp"@) {
        Some(WICCodecs::WIC_CODEC_BMP)
    } else if ascii_ieq(ext, "hdp"@) {
        Some(WICCodecs::WIC_CODEC_WMP)
    } else if ascii_ieq(ext, "heic"@) || ascii_ieq(ext, "heif"@) {
        Some(WICCodecs::WIC_CODEC_HEIF)
    } else if ascii_ieq(ext, "jpeg"@) || ascii_ieq(ext, "jpg"@) {
        Some(WICCodecs::WIC_CODEC_JPEG)
    } else if ascii_ieq(ext, "jxr"@) {
        Some(WICCodecs::WIC_CODEC_WMP)
    } else if ascii_ieq(ext, "png"@) {
        Some(WICCodecs::WIC_CODEC_PNG)
    } else if ascii_ieq(ext, "tif"@) || ascii_ieq(ext, "tiff"@) {
        Some(WICCodecs::WIC_CODEC_TIFF)
    } else if ascii_ieq(ext, "wdp"@) {
        Some(WICCodecs::WIC_CODEC_WMP)
    } else {
        None
    }
}

/// The platform codec for a file extension, ignoring ASCII case, or `None`
/// for an extension it does not write.
pub fn wic_codec_by_ext(ext: &str) -> (r: Option<WICCodecs>)
    ensures
        r == spec_wic_codec(ext@),
{
    if eq_ignore_case(ext, "bmp") {
        Some(WICCodecs::WIC_CODEC_BMP)
    } else if eq_ignore_case(ext, "hdp") {
        Some(WICCodecs::WIC_CODEC_WMP)
    } else if eq_ignore_case(ext, "heic") || eq_ignore_case(ext, "heif") {
        Some(WICCodecs::WIC_CODEC_HEIF)
    } else if eq_ignore_case(ext, "jpeg") || eq_ignore_case(ext, "jpg") {
        Some(WICCodecs::WIC_CODEC_JPEG)
    } else if eq_ignore_case(ext, "jxr") {
        Some(WICCodecs::WIC_CODEC_WMP)
    } else if eq_ignore_case(ext, "png") {
        Some(WICCodecs::WIC_CODEC_PNG)
    } else if eq_ignore_case(ext, "tif") || eq_ignore_case(ext, "tiff") {
        Some(WICCodecs::WIC_CODEC_TIFF)
    } else if eq_ignore_case(ext, "wdp") {
        Some(WICCodecs::WIC_CODEC_WMP)
    } else {
        None
    }
}

/// The codec for a file extension, ignoring ASCII case.
pub open spec fn spec_file_codec(ext: Seq<char>) -> Option<FileCodec> {
    if ascii_ieq(ext, "dds"@) {
        Some(FileCodec::Dds)
    } else if ascii_ieq(ext, "tga"@) {
        Some(FileCodec::Tga)
    } else if ascii_ieq(ext, "hdr"@) {
        Some(FileCodec::Hdr)
    } else if ascii_ieq(ext, "exr"@) {
        Some(FileCodec::Exr)
    } else {
        match spec_wic_codec(ext) {
            Some(c) => Some(FileCodec::Wic(c)),
            None => None,
        }
    }
}

/// Chooses the codec that loads, saves or describes a file from its
/// extension (`None` when the file name has none). An extension outside the
/// table is rejected; no codec is picked by default.
pub fn codec_for_extension(ext: Option<&str>) -> (r: Result<FileCodec>)
    ensures
        match ext {
            Some(e) => match spec_file_codec(e@) {
                Some(c) => r == Ok::<FileCodec, Error>(c),
                None => r == Err::<FileCodec, Error>(Error(E_INVALIDARG)),
            },
            None => r == Err::<FileCodec, Error>(Error(E_INVALIDARG)),
        },
{
    let ext = match ext {
        Some(e) => e,
        None => {
            return Err(invalid_arg());
        },
    };
    if eq_ignore_case(ext, "dds") {
        Ok(FileCodec::Dds)
    } else if eq_ignore_case(ext, "tga") {
        Ok(FileCodec::Tga)
    } else if eq_ignore_case(ext, "hdr") {
        Ok(FileCodec::Hdr)
    } else if eq_ignore_case(ext, "exr") {
        Ok(FileCodec::Exr)
    } else {
        match wic_codec_by_ext(ext) {
            Some(c) => Ok(FileCodec::Wic(c)),
            None => Err(invalid_arg()),
        }
    }
}

} // verus!
