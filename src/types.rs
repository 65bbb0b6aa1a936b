use vstd::prelude::*;

verus! {

/// A globally unique identifier, as the native interfaces name codecs and
/// container formats.
#[derive(Clone, Copy, Debug, PartialEq, Eq, Hash, Default)]
pub struct GUID {
    pub data1: u32,
    pub data2: u16,
    pub data3: u16,
    pub data4: [u8; 8],
}

/// Four signed 32-bit lanes of one pixel, as the native per-pixel
/// callbacks lay them out.
#[derive(Clone, Copy, Debug, PartialEq, Eq, Structural)]
pub struct XMVECTORI32(pub i32, pub i32, pub i32, pub i32);

/// Four unsigned 32-bit lanes of one pixel, as the native per-pixel
/// callbacks lay them out.
#[derive(Clone, Copy, Debug, PartialEq, Eq, Structural)]
pub struct XMVECTORU32(pub u32, pub u32, pub u32, pub u32);

/// An opaque native graphics device, only ever handled by reference.
pub struct ID3D11Device([u8; 0]);

/// An opaque native graphics device context.
pub struct ID3D11DeviceContext([u8; 0]);

/// An opaque native graphics resource.
pub struct ID3D11Resource([u8; 0]);

/// An opaque native shader resource view.
pub struct ID3D11ShaderResourceView([u8; 0]);

/// An opaque native imaging factory of the platform codecs.
pub struct IWICImagingFactory([u8; 0]);

/// An opaque native reader of a codec's metadata.
pub struct IWICMetadataQueryReader([u8; 0]);

/// An opaque native property bag that codecs take their options from.
pub struct IPropertyBag2([u8; 0]);

} // verus!
