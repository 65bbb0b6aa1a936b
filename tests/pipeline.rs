use directxtex::error::{Error, E_FAIL, E_INVALIDARG};
use directxtex::flags::{TEX_COMPRESS_FLAGS, TEX_FILTER_FLAGS};
use directxtex::format::{
    DXGI_FORMAT_BC1_UNORM, DXGI_FORMAT_BC7_UNORM, DXGI_FORMAT_R32G32B32A32_FLOAT,
    DXGI_FORMAT_R8G8B8A8_UNORM,
};
use directxtex::pipeline::{
    convert_or_compress_step, decompress_step, format_step, FormatStep,
};
use directxtex::{compress_texture, decompress_texture, Operation, ScratchImage};

#[test]
fn format_steps() {
    let rgba = DXGI_FORMAT_R8G8B8A8_UNORM;
    assert_eq!(format_step(rgba, rgba), FormatStep::Done);
    assert_eq!(format_step(DXGI_FORMAT_BC1_UNORM, rgba), FormatStep::Decompress);
    assert_eq!(format_step(DXGI_FORMAT_BC1_UNORM, DXGI_FORMAT_BC7_UNORM), FormatStep::Decompress);
    assert_eq!(format_step(rgba, DXGI_FORMAT_BC7_UNORM), FormatStep::Compress(DXGI_FORMAT_BC7_UNORM));
    assert_eq!(
        format_step(rgba, DXGI_FORMAT_R32G32B32A32_FLOAT),
        FormatStep::Convert(DXGI_FORMAT_R32G32B32A32_FLOAT)
    );
    assert_eq!(decompress_step(DXGI_FORMAT_BC7_UNORM), FormatStep::Decompress);
    assert_eq!(decompress_step(rgba), FormatStep::Done);
    assert_eq!(convert_or_compress_step(rgba, rgba), FormatStep::Done);
    assert_eq!(
        convert_or_compress_step(rgba, DXGI_FORMAT_BC1_UNORM),
        FormatStep::Compress(DXGI_FORMAT_BC1_UNORM)
    );
}

#[test]
fn format_stepping_reaches_the_target_within_two_steps() {
    // Decompression of BC1 gives RGBA8; every other step gives what it asks for.
    let target = DXGI_FORMAT_R32G32B32A32_FLOAT;
    let mut format = DXGI_FORMAT_BC1_UNORM;
    let mut steps = 0;
    loop {
        match format_step(format, target) {
            FormatStep::Done => break,
            FormatStep::Decompress => format = DXGI_FORMAT_R8G8B8A8_UNORM,
            FormatStep::Compress(f) | FormatStep::Convert(f) => format = f,
        }
        steps += 1;
    }
    assert_eq!(format, target);
    assert_eq!(steps, 2);
}

#[test]
fn format_stepping_between_compressed_formats() {
    let target = DXGI_FORMAT_BC7_UNORM;
    assert_eq!(format_step(DXGI_FORMAT_BC1_UNORM, target), FormatStep::Decompress);
    assert_eq!(format_step(DXGI_FORMAT_R8G8B8A8_UNORM, target), FormatStep::Compress(target));
    assert_eq!(format_step(target, target), FormatStep::Done);
}

#[test]
fn compress_texture_plans_mipmaps_then_compression() {
    let data = vec![3u8; 64];
    let flags = TEX_COMPRESS_FLAGS::default();
    let job = compress_texture(DXGI_FORMAT_R8G8B8A8_UNORM, 4, 4, 1, 3, &data, flags).unwrap();
    assert_eq!(
        job.next_operation(),
        Some(Operation::GenerateMipmaps { levels: 3, filter: TEX_FILTER_FLAGS::default() })
    );
    assert_eq!(job.image().buffer(), &data[..]);
    let mipmapped =
        ScratchImage::new_2d(DXGI_FORMAT_R8G8B8A8_UNORM, 4, 4, 1, 3, &[5u8; 84]).unwrap();
    let job = job.advance(Ok(mipmapped)).unwrap();
    assert_eq!(
        job.next_operation(),
        Some(Operation::Compress { format: DXGI_FORMAT_R8G8B8A8_UNORM, flags })
    );
    assert!(!job.is_complete());
    let compressed = ScratchImage::new_2d(DXGI_FORMAT_BC1_UNORM, 4, 4, 1, 1, &[6u8; 8]).unwrap();
    let job = job.advance(Ok(compressed)).unwrap();
    assert!(job.is_complete());
    assert_eq!(job.next_operation(), None);
    assert_eq!(job.finish(), vec![6u8; 8]);
}

#[test]
fn compress_texture_single_level_and_failures() {
    let flags = TEX_COMPRESS_FLAGS::default();
    let job = compress_texture(DXGI_FORMAT_R8G8B8A8_UNORM, 4, 4, 1, 1, &[0u8; 64], flags).unwrap();
    assert_eq!(
        job.next_operation(),
        Some(Operation::Compress { format: DXGI_FORMAT_R8G8B8A8_UNORM, flags })
    );
    assert_eq!(job.advance(Err(Error(E_FAIL))).err(), Some(Error(E_FAIL)));
    assert_eq!(
        compress_texture(DXGI_FORMAT_R8G8B8A8_UNORM, 4, 4, 1, 1, &[0u8; 63], flags).err(),
        Some(Error(E_INVALIDARG))
    );
}

#[test]
fn decompress_texture_checks_the_compressed_size() {
    let job = decompress_texture(DXGI_FORMAT_BC1_UNORM, 8, 8, 1, 1, &[1u8; 32]).unwrap();
    assert_eq!(job.next_operation(), Some(Operation::Decompress));
    assert_eq!(job.image().buffer_size(), 32);
    assert_eq!(
        decompress_texture(DXGI_FORMAT_BC1_UNORM, 8, 8, 1, 1, &[1u8; 31]).err(),
        Some(Error(E_INVALIDARG))
    );
    let decompressed =
        ScratchImage::new_2d(DXGI_FORMAT_R8G8B8A8_UNORM, 8, 8, 1, 1, &[2u8; 256]).unwrap();
    let done = job.advance(Ok(decompressed)).unwrap();
    assert_eq!(done.finish(), vec![2u8; 256]);
}
