//! Raster codecs: serialize an 8-bit grayscale pixel buffer as PNG or
//! JPEG bytes through a standard image codec.

use vstd::prelude::*;

verus! {

/// A raster output format for a rendered symbol.
#[derive(Clone, Copy, Debug, PartialEq, Eq, Structural)]
pub enum RasterFormat {
    /// Lossless PNG bytes.
    Png,
    /// JPEG bytes.
    Jpeg,
}

/// The PNG serialization of an 8-bit grayscale image given row-major,
/// one byte per pixel.
pub uninterp spec fn png_bytes_of(width: u32, height: u32, data: Seq<u8>) -> Seq<u8>;

/// The JPEG serialization of an 8-bit grayscale image given row-major,
/// one byte per pixel.
pub uninterp spec fn jpeg_bytes_of(width: u32, height: u32, data: Seq<u8>) -> Seq<u8>;

/// Relies on image's `png::PNGEncoder::encode` with the 8-bit grayscale
/// color type: writing to a byte vector cannot fail, and the encoder
/// rejects only a zero dimension or a data length other than
/// width times height, both excluded here.
#[verifier::external_body]
pub(crate) fn png_encode(width: u32, height: u32, data: &Vec<u8>) -> (r: Vec<u8>)
    requires
        1 <= width,
        1 <= height,
        data@.len() == width * height,
    ensures
        r@ == png_bytes_of(width, height, data@),
{
    let mut buf: Vec<u8> = Vec::new();
    image::png::PNGEncoder::new(&mut buf)
        .encode(data.as_slice(), width, height, image::ColorType::Gray(8))
        .unwrap();
    buf
}

/// Relies on image's `jpeg::JPEGEncoder::encode` with the 8-bit grayscale
/// color type: writing to a byte vector cannot fail for that color type,
/// and the frame header holds dimensions as 16-bit values, so both are
/// kept within that range.
#[verifier::external_body]
pub(crate) fn jpeg_encode(width: u32, height: u32, data: &Vec<u8>) -> (r: Vec<u8>)
    requires
        1 <= width <= 65535,
        1 <= height <= 65535,
        data@.len() == width * height,
    ensures
        r@ == jpeg_bytes_of(width, height, data@),
{
    let mut buf: Vec<u8> = Vec::new();
    image::jpeg::JPEGEncoder::new(&mut buf)
        .encode(data.as_slice(), width, height, image::ColorType::Gray(8))
        .unwrap();
    buf
}

} // verus!
