use directxtex::error::{
    Error, E_ARITHMETIC_OVERFLOW, E_FAIL, E_INVALIDARG, E_NOT_SUPPORTED,
};
use directxtex::format::{
    DXGI_FORMAT_B8G8R8A8_UNORM, DXGI_FORMAT_BC1_UNORM, DXGI_FORMAT_P8,
    DXGI_FORMAT_R32G32B32A32_FLOAT, DXGI_FORMAT_R8G8B8A8_UNORM, DXGI_FORMAT_R8G8B8A8_UNORM_SRGB,
    DXGI_FORMAT_YUY2,
};
use directxtex::layout::compute_pitch;
use directxtex::metadata::{
    TEX_DIMENSION_TEXTURE1D, TEX_DIMENSION_TEXTURE2D, TEX_DIMENSION_TEXTURE3D,
};
use directxtex::scratch::expected_buffer;
use directxtex::{Blob, RawImage, ScratchImage, TexMetadata};

fn pattern(len: usize) -> Vec<u8> {
    (0..len).map(|i| (i % 251) as u8).collect()
}

#[test]
fn allocate_rgba8_reports_pitches_and_size() {
    let image = ScratchImage::allocate(DXGI_FORMAT_R8G8B8A8_UNORM, 32, 32, 1, 1).unwrap();
    assert_eq!(compute_pitch(DXGI_FORMAT_R8G8B8A8_UNORM, 32, 32), Ok((128, 4096)));
    assert_eq!(image.buffer_size(), 4096);
    assert_eq!(image.buffer().len(), 4096);
    assert_eq!(image.num_images(), 1);
    let view = image.image(0, 0, 0).unwrap();
    assert_eq!(view.row_pitch(), 128);
    assert_eq!(view.slice_pitch(), 4096);
    assert_eq!(view.size(), 4096);
    assert_eq!(view.buffer().len(), 4096);
    assert_eq!(view.width(), 32);
    assert_eq!(view.height(), 32);
    assert_eq!(view.format(), DXGI_FORMAT_R8G8B8A8_UNORM);
    let meta = image.metadata();
    assert_eq!(meta.dimension, TEX_DIMENSION_TEXTURE2D);
    assert_eq!((meta.width, meta.height, meta.depth), (32, 32, 1));
    assert_eq!((meta.array_size, meta.mip_levels), (1, 1));
    assert!(image.buffer().iter().all(|b| *b == 0));
}

#[test]
fn from_bytes_rejects_any_length_mismatch() {
    let short = pattern(63);
    let long = pattern(65);
    let exact = pattern(64);
    let f = DXGI_FORMAT_R8G8B8A8_UNORM;
    assert_eq!(ScratchImage::new_2d(f, 4, 4, 1, 1, &short).err(), Some(Error(E_INVALIDARG)));
    assert_eq!(ScratchImage::new_2d(f, 4, 4, 1, 1, &long).err(), Some(Error(E_INVALIDARG)));
    assert_eq!(ScratchImage::new_2d(f, 4, 4, 1, 1, &[]).err(), Some(Error(E_INVALIDARG)));
    let image = ScratchImage::new_2d(f, 4, 4, 1, 1, &exact).unwrap();
    assert_eq!(image.buffer(), &exact[..]);
}

#[test]
fn copy_from_slice_checks_length_and_keeps_data_on_error() {
    let mut image = ScratchImage::new_2d(DXGI_FORMAT_R8G8B8A8_UNORM, 2, 2, 1, 1, &pattern(16))
        .unwrap();
    assert_eq!(image.copy_from_slice(&[7u8; 15]), Err(Error(E_INVALIDARG)));
    assert_eq!(image.buffer(), &pattern(16)[..]);
    assert_eq!(image.copy_from_slice(&[7u8; 16]), Ok(()));
    assert_eq!(image.buffer(), &[7u8; 16][..]);
}

#[test]
fn sub_image_out_of_range_is_none() {
    let image = ScratchImage::allocate(DXGI_FORMAT_R8G8B8A8_UNORM, 8, 8, 2, 0).unwrap();
    assert_eq!(image.mip_levels(), 4);
    assert_eq!(image.num_images(), 8);
    assert!(image.image(4, 0, 0).is_none());
    assert!(image.image(0, 2, 0).is_none());
    assert!(image.image(0, 0, 1).is_none());
    assert!(image.image(usize::MAX, usize::MAX, usize::MAX).is_none());
    assert!(image.image_size(4, 0, 0).is_none());
    assert!(image.image_buffer(0, 2, 0).is_none());
    let last = image.image(3, 1, 0).unwrap();
    assert_eq!((last.width(), last.height()), (1, 1));
    assert_eq!(image.image_size(3, 1, 0), Some(4));
}

#[test]
fn mip_chain_layout_follows_halved_extents() {
    let image = ScratchImage::allocate(DXGI_FORMAT_R8G8B8A8_UNORM, 4, 2, 1, 0).unwrap();
    assert_eq!(image.mip_levels(), 3);
    assert_eq!(image.buffer_size(), 32 + 8 + 4);
    let images = image.images();
    assert_eq!(images.len(), 3);
    assert_eq!(
        images[0],
        RawImage { width: 4, height: 2, format: 28, row_pitch: 16, slice_pitch: 32, offset: 0 }
    );
    assert_eq!(
        images[1],
        RawImage { width: 2, height: 1, format: 28, row_pitch: 8, slice_pitch: 8, offset: 32 }
    );
    assert_eq!(
        images[2],
        RawImage { width: 1, height: 1, format: 28, row_pitch: 4, slice_pitch: 4, offset: 40 }
    );
}

#[test]
fn array_items_follow_one_another() {
    let data = pattern(60);
    let image = ScratchImage::new_2d(DXGI_FORMAT_R8G8B8A8_UNORM, 2, 2, 3, 2, &data).unwrap();
    assert_eq!(image.num_images(), 6);
    assert_eq!(image.images()[5].offset, 56);
    assert_eq!(image.image_buffer(1, 2, 0).unwrap(), &data[56..60]);
    assert_eq!(image.image_buffer(0, 1, 0).unwrap(), &data[20..36]);
    assert_eq!(image.image0().buffer(), &data[0..16]);
}

#[test]
fn allocate_reports_each_error() {
    let f = DXGI_FORMAT_R8G8B8A8_UNORM;
    assert_eq!(ScratchImage::allocate(0, 4, 4, 1, 1).err(), Some(Error(E_INVALIDARG)));
    assert_eq!(ScratchImage::allocate(DXGI_FORMAT_P8, 4, 4, 1, 1).err(), Some(Error(E_NOT_SUPPORTED)));
    assert_eq!(ScratchImage::allocate(f, 0, 4, 1, 1).err(), Some(Error(E_INVALIDARG)));
    assert_eq!(ScratchImage::allocate(f, 4, 0, 1, 1).err(), Some(Error(E_INVALIDARG)));
    assert_eq!(ScratchImage::allocate(f, 4, 4, 0, 1).err(), Some(Error(E_INVALIDARG)));
    assert_eq!(ScratchImage::allocate(f, 4, 4, 1, 4).err(), Some(Error(E_INVALIDARG)));
    assert!(ScratchImage::allocate(f, 4, 4, 1, 3).is_ok());
    assert_eq!(
        ScratchImage::allocate(DXGI_FORMAT_R32G32B32A32_FLOAT, 1 << 40, 1 << 40, 1, 1).err(),
        Some(Error(E_ARITHMETIC_OVERFLOW))
    );
}

#[test]
fn one_dimensional_containers() {
    let image = ScratchImage::allocate_1d(DXGI_FORMAT_R8G8B8A8_UNORM, 16, 1, 1).unwrap();
    assert_eq!(image.metadata().dimension, TEX_DIMENSION_TEXTURE1D);
    assert_eq!(image.height(), 1);
    assert_eq!(image.buffer_size(), 64);
    assert_eq!(
        ScratchImage::allocate_1d(DXGI_FORMAT_YUY2, 16, 1, 1).err(),
        Some(Error(E_NOT_SUPPORTED))
    );
    let from_new = ScratchImage::new(DXGI_FORMAT_R8G8B8A8_UNORM, 16, 1, 1, 1, &pattern(64)).unwrap();
    assert_eq!(from_new.metadata().dimension, TEX_DIMENSION_TEXTURE1D);
    let two_d = ScratchImage::new(DXGI_FORMAT_R8G8B8A8_UNORM, 4, 4, 1, 1, &pattern(64)).unwrap();
    assert_eq!(two_d.metadata().dimension, TEX_DIMENSION_TEXTURE2D);
    assert_eq!(ScratchImage::new_1d(DXGI_FORMAT_R8G8B8A8_UNORM, 16, 1, 1, &pattern(63)).err(), Some(Error(E_INVALIDARG)));
}

#[test]
fn clone_copies_everything_into_an_independent_arena() {
    let data = pattern(20);
    let original = ScratchImage::new_2d(DXGI_FORMAT_R8G8B8A8_UNORM, 2, 2, 1, 2, &data).unwrap();
    let mut copy = original.clone();
    assert_eq!(copy.buffer(), original.buffer());
    assert_eq!(copy.metadata(), original.metadata());
    assert_eq!(copy.images(), original.images());
    copy.copy_from_slice(&[9u8; 20]).unwrap();
    assert_eq!(original.buffer(), &data[..]);
    assert_eq!(copy.buffer(), &[9u8; 20][..]);
}

#[test]
fn override_format_needs_the_same_layout() {
    let data = pattern(16);
    let mut image = ScratchImage::new_2d(DXGI_FORMAT_R8G8B8A8_UNORM, 2, 2, 1, 1, &data).unwrap();
    assert_eq!(image.override_format(DXGI_FORMAT_R8G8B8A8_UNORM_SRGB), Ok(()));
    assert_eq!(image.format(), DXGI_FORMAT_R8G8B8A8_UNORM_SRGB);
    assert_eq!(image.images()[0].format, DXGI_FORMAT_R8G8B8A8_UNORM_SRGB);
    assert_eq!(image.buffer(), &data[..]);
    assert_eq!(image.override_format(DXGI_FORMAT_B8G8R8A8_UNORM), Ok(()));
    assert_eq!(image.override_format(DXGI_FORMAT_BC1_UNORM), Err(Error(E_FAIL)));
    assert_eq!(image.override_format(DXGI_FORMAT_R32G32B32A32_FLOAT), Err(Error(E_FAIL)));
    assert_eq!(image.format(), DXGI_FORMAT_B8G8R8A8_UNORM);
    assert_eq!(image.buffer(), &data[..]);
}

fn volume_parts() -> (TexMetadata, Vec<RawImage>, Vec<u8>) {
    let metadata = TexMetadata {
        width: 1,
        height: 1,
        depth: 4,
        array_size: 1,
        mip_levels: 3,
        misc_flags: 0,
        misc_flags2: 0,
        format: DXGI_FORMAT_R8G8B8A8_UNORM,
        dimension: TEX_DIMENSION_TEXTURE3D,
    };
    let images = (0..7)
        .map(|i| RawImage {
            width: 1,
            height: 1,
            format: DXGI_FORMAT_R8G8B8A8_UNORM,
            row_pitch: 4,
            slice_pitch: 4,
            offset: 4 * i,
        })
        .collect();
    (metadata, images, pattern(28))
}

#[test]
fn volume_slices_halve_per_level() {
    let (metadata, images, memory) = volume_parts();
    let volume = ScratchImage::from_parts(metadata, images, memory).unwrap();
    assert_eq!(volume.num_images(), 7);
    assert_eq!(volume.image(1, 0, 1).unwrap().buffer(), &pattern(28)[20..24]);
    assert!(volume.image(1, 0, 2).is_none());
    assert_eq!(volume.image(2, 0, 0).unwrap().buffer(), &pattern(28)[24..28]);
    assert!(volume.image(0, 1, 0).is_none());
    assert!(volume.image(3, 0, 0).is_none());
}

#[test]
fn from_parts_checks_the_invariant() {
    let (metadata, images, memory) = volume_parts();
    let mut fewer = images.clone();
    fewer.pop();
    assert_eq!(
        ScratchImage::from_parts(metadata, fewer, memory.clone()).err(),
        Some(Error(E_INVALIDARG))
    );
    let mut outside = images.clone();
    outside[6].offset = 25;
    assert_eq!(
        ScratchImage::from_parts(metadata, outside, memory.clone()).err(),
        Some(Error(E_INVALIDARG))
    );
    let mut relabelled = images.clone();
    relabelled[0].format = DXGI_FORMAT_B8G8R8A8_UNORM;
    assert_eq!(
        ScratchImage::from_parts(metadata, relabelled, memory.clone()).err(),
        Some(Error(E_INVALIDARG))
    );
    let mut past_end = images.clone();
    past_end[6].offset = 28;
    past_end[6].slice_pitch = 0;
    assert_eq!(
        ScratchImage::from_parts(metadata, past_end, memory.clone()).err(),
        Some(Error(E_INVALIDARG))
    );
    let flat = TexMetadata { dimension: TEX_DIMENSION_TEXTURE2D, ..metadata };
    assert_eq!(
        ScratchImage::from_parts(flat, images.clone(), memory.clone()).err(),
        Some(Error(E_INVALIDARG))
    );
    assert!(ScratchImage::from_parts(metadata, images, memory).is_ok());
}

#[test]
fn from_status_keeps_the_native_code() {
    let (metadata, images, memory) = volume_parts();
    assert_eq!(
        ScratchImage::from_status(E_FAIL, metadata, images.clone(), memory.clone()).err(),
        Some(Error(E_FAIL))
    );
    assert!(ScratchImage::from_status(0, metadata, images, memory).is_ok());
}

#[test]
fn expected_buffer_matches_allocation() {
    assert_eq!(expected_buffer(DXGI_FORMAT_R8G8B8A8_UNORM, 32, 32, 1, 1), Ok(4096));
    assert_eq!(expected_buffer(DXGI_FORMAT_BC1_UNORM, 8, 8, 1, 1), Ok(32));
    assert_eq!(expected_buffer(DXGI_FORMAT_BC1_UNORM, 8, 8, 2, 0), Ok(2 * (32 + 8 + 8 + 8)));
    assert_eq!(expected_buffer(0, 8, 8, 1, 1), Err(Error(E_INVALIDARG)));
}

#[test]
fn blob_owns_its_bytes() {
    let blob = Blob::new(vec![1, 2, 3]);
    assert_eq!(blob.len(), 3);
    assert_eq!(blob.buffer(), &[1, 2, 3]);
    assert!(!blob.is_empty());
    assert!(Blob::new(Vec::new()).is_empty());
}

#[test]
fn metadata_default_and_equality() {
    let meta = TexMetadata::default();
    assert_eq!(meta.width, 0);
    assert_eq!(meta.format, 0);
    let other = TexMetadata { mip_levels: 1, ..meta };
    assert_ne!(meta, other);
    assert_eq!(meta, TexMetadata::default());
}
