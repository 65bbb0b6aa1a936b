//! Ownership-safe model of a texture-processing library's image container.
//!
//! The native library owns the pixel algorithms (codecs, block compression,
//! resampling, colour conversion). This crate holds the parts around them that
//! decide and validate: status-code translation, format classification, the
//! layout of a container's pixel arena, bounds-checked sub-image views, the
//! step-wise format conversion plan and the file-extension dispatch table.

#![allow(non_camel_case_types)]

pub mod codec;
pub mod cwide;
pub mod error;
pub mod flags;
pub mod format;
pub mod image;
pub mod layout;
pub mod metadata;
pub mod pipeline;
pub mod scratch;
pub mod types;

pub use codec::{wic_codec_by_ext, FileCodec, WICCodecs};
pub use cwide::CWide;
pub use error::{Error, Result};
pub use format::DXGI_FORMAT;
pub use image::{Blob, Image, RawImage};
pub use metadata::{TexMetadata, TEX_DIMENSION};
pub use pipeline::{compress_texture, decompress_texture, Operation, TextureJob};
pub use scratch::ScratchImage;
pub use types::{
    ID3D11Device, ID3D11DeviceContext, ID3D11Resource, ID3D11ShaderResourceView, IPropertyBag2,
    IWICImagingFactory, IWICMetadataQueryReader, GUID, XMVECTORI32, XMVECTORU32,
};
