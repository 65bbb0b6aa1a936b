use directxtex::codec::codec_for_extension;
use directxtex::error::{Error, E_INVALIDARG};
use directxtex::{wic_codec_by_ext, CWide, FileCodec, WICCodecs};

#[test]
fn extensions_choose_codecs_ignoring_case() {
    assert_eq!(codec_for_extension(Some("dds")), Ok(FileCodec::Dds));
    assert_eq!(codec_for_extension(Some("DDS")), Ok(FileCodec::Dds));
    assert_eq!(codec_for_extension(Some("Tga")), Ok(FileCodec::Tga));
    assert_eq!(codec_for_extension(Some("hdr")), Ok(FileCodec::Hdr));
    assert_eq!(codec_for_extension(Some("EXR")), Ok(FileCodec::Exr));
    assert_eq!(codec_for_extension(Some("JPG")), Ok(FileCodec::Wic(WICCodecs::WIC_CODEC_JPEG)));
    assert_eq!(codec_for_extension(Some("jpeg")), Ok(FileCodec::Wic(WICCodecs::WIC_CODEC_JPEG)));
    assert_eq!(codec_for_extension(Some("png")), Ok(FileCodec::Wic(WICCodecs::WIC_CODEC_PNG)));
    assert_eq!(codec_for_extension(Some("heif")), Ok(FileCodec::Wic(WICCodecs::WIC_CODEC_HEIF)));
    assert_eq!(codec_for_extension(Some("wdp")), Ok(FileCodec::Wic(WICCodecs::WIC_CODEC_WMP)));
}

#[test]
fn unknown_extensions_are_rejected() {
    assert_eq!(codec_for_extension(Some("gif")), Err(Error(E_INVALIDARG)));
    assert_eq!(codec_for_extension(Some("")), Err(Error(E_INVALIDARG)));
    assert_eq!(codec_for_extension(Some("ddss")), Err(Error(E_INVALIDARG)));
    assert_eq!(codec_for_extension(Some("dd")), Err(Error(E_INVALIDARG)));
    assert_eq!(codec_for_extension(Some("d\u{f6}s")), Err(Error(E_INVALIDARG)));
    assert_eq!(codec_for_extension(None), Err(Error(E_INVALIDARG)));
}

#[test]
fn wic_codec_table() {
    assert_eq!(wic_codec_by_ext("bmp"), Some(WICCodecs::WIC_CODEC_BMP));
    assert_eq!(wic_codec_by_ext("HDP"), Some(WICCodecs::WIC_CODEC_WMP));
    assert_eq!(wic_codec_by_ext("heic"), Some(WICCodecs::WIC_CODEC_HEIF));
    assert_eq!(wic_codec_by_ext("Jxr"), Some(WICCodecs::WIC_CODEC_WMP));
    assert_eq!(wic_codec_by_ext("tif"), Some(WICCodecs::WIC_CODEC_TIFF));
    assert_eq!(wic_codec_by_ext("TIFF"), Some(WICCodecs::WIC_CODEC_TIFF));
    assert_eq!(wic_codec_by_ext("jpe"), None);
    assert_eq!(wic_codec_by_ext("dds"), None);
}

#[test]
fn wide_strings_end_in_zero() {
    assert_eq!(CWide::from_str("ab").as_wide(), &[97, 98, 0]);
    assert_eq!(CWide::from_str("").as_wide(), &[0]);
    assert_eq!(CWide::from_str("a\u{1F600}").as_wide(), &[97, 0xD83D, 0xDE00, 0]);
    assert_eq!(CWide::from_str("\u{e9}").len(), 2);
    assert_eq!(CWide::try_from_slice(&[1, 2]).err(), Some(Error(E_INVALIDARG)));
    assert_eq!(CWide::try_from_slice(&[]).err(), Some(Error(E_INVALIDARG)));
    assert_eq!(CWide::try_from_slice(&[1, 0]).unwrap().as_wide(), &[1, 0]);
    assert_eq!(CWide::try_from_vec(vec![]).err(), Some(Error(E_INVALIDARG)));
    assert_eq!(CWide::try_from_vec(vec![5, 0, 6]).err(), Some(Error(E_INVALIDARG)));
    assert_eq!(CWide::try_from_vec(vec![5, 0]).unwrap().as_wide(), &[5, 0]);
}
