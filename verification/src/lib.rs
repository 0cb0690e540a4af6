//! Rendering pipeline that turns a textual payload into a scannable
//! machine-readable symbol (2D matrix code or 1D linear barcode) and
//! serializes it as SVG markup, PNG bytes, or JPEG bytes.
//!
//! The pipeline is purely functional: encoding and rendering are
//! deterministic functions of the payload, the requested size and the
//! format, with no shared or persisted state. The symbol is scaled with
//! min-dimension semantics (the output is at least the requested size in
//! each direction, in whole-module steps), drawn black on white, one
//! 8-bit grayscale channel for rasters, and no quiet-zone border is
//! added.

use vstd::prelude::*;

pub mod codec;
pub mod ean13;
pub mod errors;
pub mod matrix;
pub mod raster;
pub mod render;
pub mod svg;

pub use codec::RasterFormat;
pub use errors::EncodeError;
pub use errors::Error;
pub use errors::RenderError;
pub use render::render_linear_raster;
pub use render::render_matrix_raster;
pub use render::render_matrix_svg;

use crate::codec::png_bytes_of;
use crate::codec::jpeg_bytes_of;
use crate::matrix::qr_symbol_of;
use crate::raster::matrix_raster;
use crate::raster::scale_of;
use crate::svg::svg_markup;

verus! {

/// Renders the matrix symbol for `value` as a standalone SVG document.
///
/// Compatibility entry point: the caller must know that the payload fits
/// the symbology. `render_matrix_svg` performs that test itself and
/// reports failure as a value.
pub fn gen_svg(value: String, size: u32) -> (r: String)
    requires
        1 <= size,
        qr_symbol_of(value@) is Some,
    ensures
        ({
            let rows = qr_symbol_of(value@)->Some_0;
            r@ == svg_markup(rows, scale_of(rows.len() as int, size as int))
        }),
{
    match matrix::encode_matrix(value.as_str()) {
        Ok(m) => svg::svg_for_matrix(&m, size),
        Err(_) => unreached(),
    }
}

/// Renders the matrix symbol for `value` as PNG bytes.
///
/// Compatibility entry point: the caller must know that the payload fits
/// the symbology and that the scaled dimensions are representable.
/// `render_matrix_raster` performs those tests itself and reports failure
/// as a value.
pub fn gen_png_buf(value: String, size: u32) -> (r: Vec<u8>)
    requires
        1 <= size,
        qr_symbol_of(value@) is Some,
        ({
            let rows = qr_symbol_of(value@)->Some_0;
            let w = rows.len() * scale_of(rows.len() as int, size as int);
            w <= u32::MAX && w * w <= usize::MAX
        }),
    ensures
        ({
            let rows = qr_symbol_of(value@)->Some_0;
            let s = scale_of(rows.len() as int, size as int);
            let w = rows.len() * s;
            r@ == png_bytes_of(w as u32, w as u32, matrix_raster(rows, s))
        }),
{
    match matrix::encode_matrix(value.as_str()) {
        Ok(m) => match raster::rasterize_matrix(&m, size) {
            Ok(buf) => codec::png_encode(buf.width, buf.height, &buf.data),
            Err(_) => unreached(),
        },
        Err(_) => unreached(),
    }
}

/// Renders the matrix symbol for `value` as JPEG bytes.
///
/// Compatibility entry point, under the same conditions as `gen_png_buf`
/// plus JPEG's 16-bit dimension limit; `render_matrix_raster` performs
/// the tests itself.
pub fn gen_jpeg(value: String, size: u32) -> (r: Vec<u8>)
    requires
        1 <= size,
        qr_symbol_of(value@) is Some,
        ({
            let rows = qr_symbol_of(value@)->Some_0;
            let w = rows.len() * scale_of(rows.len() as int, size as int);
            w <= 65535 && w * w <= usize::MAX
        }),
    ensures
        ({
            let rows = qr_symbol_of(value@)->Some_0;
            let s = scale_of(rows.len() as int, size as int);
            let w = rows.len() * s;
            r@ == jpeg_bytes_of(w as u32, w as u32, matrix_raster(rows, s))
        }),
{
    match matrix::encode_matrix(value.as_str()) {
        Ok(m) => match raster::rasterize_matrix(&m, size) {
            Ok(buf) => codec::jpeg_encode(buf.width, buf.height, &buf.data),
            Err(_) => unreached(),
        },
        Err(_) => unreached(),
    }
}

} // verus!
