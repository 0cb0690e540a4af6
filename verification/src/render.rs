//! Top-level pipeline: the three pure entry points the serving layer
//! calls. Each one encodes the payload into an abstract symbol, scales it
//! with min-dimension semantics, and serializes it as SVG markup, PNG
//! bytes, or JPEG bytes. Failures are classified, never panics: a payload
//! the symbology rejects is an `Encode` error, a symbol whose scaled
//! dimensions cannot be represented in the output format is a `Render`
//! error.

use vstd::prelude::*;

use crate::codec::RasterFormat;
use crate::codec::jpeg_bytes_of;
use crate::codec::jpeg_encode;
use crate::codec::png_bytes_of;
use crate::codec::png_encode;
use crate::ean13::ean13_modules_of;
use crate::ean13::encode_linear;
use crate::ean13::linear_verdict;
use crate::errors::EncodeError;
use crate::errors::Error;
use crate::errors::RenderError;
use crate::matrix::encode_matrix;
use crate::matrix::qr_symbol_of;
use crate::raster::lemma_scale_covers;
use crate::raster::linear_raster;
use crate::raster::matrix_raster;
use crate::raster::rasterize_linear;
use crate::raster::scale_for;
use crate::raster::scale_of;
use crate::svg::svg_markup;

verus! {

/// Renders the matrix symbol for `value` as a standalone SVG document of
/// at least `size` pixels in each direction.
///
/// Succeeds exactly when the payload fits the symbology; the markup is a
/// function of the payload and the size alone, so equal calls return
/// equal documents.
pub fn render_matrix_svg(value: &str, size: u32) -> (r: Result<String, Error>)
    requires
        1 <= size,
    ensures
        r is Ok <==> qr_symbol_of(value@) is Some,
        qr_symbol_of(value@) is None ==> r == Err::<String, Error>(
            Error::Encode(EncodeError::CapacityExceeded),
        ),
        r is Ok ==> ({
            let rows = qr_symbol_of(value@)->Some_0;
            r->Ok_0@ == svg_markup(rows, scale_of(rows.len() as int, size as int))
        }),
{
    match encode_matrix(value) {
        Ok(_) => Ok(crate::gen_svg(value.to_owned(), size)),
        Err(e) => Err(Error::Encode(e)),
    }
}

/// Renders the matrix symbol for `value` as PNG or JPEG bytes of at least
/// `size` pixels in each direction.
///
/// A payload that fits no symbol version is `CapacityExceeded`; a scaled
/// symbol whose dimensions cannot be represented (wider than 32-bit pixel
/// counts, a buffer beyond the address space, or beyond JPEG's 16-bit
/// dimensions) is `EncodeFailure`. Otherwise the bytes are the codec's
/// serialization of the scaled raster, a function of payload, size and
/// format alone.
pub fn render_matrix_raster(value: &str, size: u32, format: RasterFormat) -> (r: Result<
    Vec<u8>,
    Error,
>)
    requires
        1 <= size,
    ensures
        qr_symbol_of(value@) is None ==> r == Err::<Vec<u8>, Error>(
            Error::Encode(EncodeError::CapacityExceeded),
        ),
        qr_symbol_of(value@) is Some ==> ({
            let rows = qr_symbol_of(value@)->Some_0;
            let s = scale_of(rows.len() as int, size as int);
            let w = rows.len() * s;
            let fits = w <= u32::MAX && w * w <= usize::MAX && (format is Jpeg ==> w <= 65535);
            &&& w >= size
            &&& !fits ==> r == Err::<Vec<u8>, Error>(Error::Render(RenderError::EncodeFailure))
            &&& fits ==> r is Ok
            &&& (fits && format is Png) ==> r->Ok_0@ == png_bytes_of(
                w as u32,
                w as u32,
                matrix_raster(rows, s),
            )
            &&& (fits && format is Jpeg) ==> r->Ok_0@ == jpeg_bytes_of(
                w as u32,
                w as u32,
                matrix_raster(rows, s),
            )
        }),
{
    let m = match encode_matrix(value) {
        Ok(m) => m,
        Err(e) => {
            return Err(Error::Encode(e));
        },
    };
    let scale = scale_for(m.side as u64, size);
    proof {
        lemma_scale_covers(m.side as int, size as int);
        assert(scale_of(m.side as int, size as int) * (m.side as int) == (m.side as int)
            * scale_of(m.side as int, size as int)) by (nonlinear_arith);
        assert((m.side as u64) * scale <= 177 * 0xFFFF_FFFFu64) by (nonlinear_arith)
            requires m.side <= 177 && scale <= 0xFFFF_FFFFu64,
        ;
    }
    let w64 = (m.side as u64) * scale;
    if w64 > 0xFFFF_FFFFu64 {
        return Err(Error::Render(RenderError::EncodeFailure));
    }
    proof {
        assert(w64 * w64 <= 0xFFFF_FFFFu64 * 0xFFFF_FFFFu64) by (nonlinear_arith)
            requires w64 <= 0xFFFF_FFFFu64,
        ;
    }
    let len64 = w64 * w64;
    if len64 > usize::MAX as u64 {
        return Err(Error::Render(RenderError::EncodeFailure));
    }
    match format {
        RasterFormat::Png => Ok(crate::gen_png_buf(value.to_owned(), size)),
        RasterFormat::Jpeg => {
            if w64 > 65535 {
                return Err(Error::Render(RenderError::EncodeFailure));
            }
            Ok(crate::gen_jpeg(value.to_owned(), size))
        },
    }
}

/// Renders the linear symbol for `value` as PNG or JPEG bytes: each
/// module becomes a column at the computed scale, the image is exactly
/// `size` pixels tall and at least `size` wide.
///
/// The payload's digit count, character class and check digit are
/// validated as `encode_linear` states; dimension failures are classified
/// as for the matrix raster.
pub fn render_linear_raster(value: &str, size: u32, format: RasterFormat) -> (r: Result<
    Vec<u8>,
    Error,
>)
    requires
        1 <= size,
    ensures
        linear_verdict(value@) is Err ==> r == Err::<Vec<u8>, Error>(
            Error::Encode(linear_verdict(value@)->Err_0),
        ),
        linear_verdict(value@) is Ok ==> ({
            let mods = ean13_modules_of(value@.take(12));
            let s = scale_of(95, size as int);
            let w = 95 * s;
            let fits = w <= u32::MAX && w * size <= usize::MAX && (format is Jpeg ==> w <= 65535
                && size <= 65535);
            &&& w >= size
            &&& !fits ==> r == Err::<Vec<u8>, Error>(Error::Render(RenderError::EncodeFailure))
            &&& fits ==> r is Ok
            &&& (fits && format is Png) ==> r->Ok_0@ == png_bytes_of(
                w as u32,
                size,
                linear_raster(mods, s, size as int),
            )
            &&& (fits && format is Jpeg) ==> r->Ok_0@ == jpeg_bytes_of(
                w as u32,
                size,
                linear_raster(mods, s, size as int),
            )
        }),
{
    proof {
        lemma_scale_covers(95, size as int);
        assert(scale_of(95, size as int) * 95 == 95 * scale_of(95, size as int)) by (nonlinear_arith);
    }
    let p = match encode_linear(value) {
        Ok(p) => p,
        Err(e) => {
            return Err(Error::Encode(e));
        },
    };
    let scale = scale_for(95, size);
    let w64 = 95 * scale;
    match format {
        RasterFormat::Jpeg => {
            if w64 > 65535 || size > 65535 {
                return Err(Error::Render(RenderError::EncodeFailure));
            }
        },
        RasterFormat::Png => {},
    }
    let buf = match rasterize_linear(&p, size) {
        Ok(b) => b,
        Err(e) => {
            return Err(Error::Render(e));
        },
    };
    match format {
        RasterFormat::Png => Ok(png_encode(buf.width, buf.height, &buf.data)),
        RasterFormat::Jpeg => Ok(jpeg_encode(buf.width, buf.height, &buf.data)),
    }
}

/// Rendering is idempotent: the pipeline keeps no state, and the result
/// each rendering function owes — the abstract symbol, the scale, and the
/// serialized artifact its contract names — is a function of the payload
/// and the size alone, so repeated calls with equal arguments return
/// equal results and leave nothing changed.
pub proof fn lemma_render_deterministic(v1: Seq<char>, v2: Seq<char>, size1: u32, size2: u32)
    requires
        v1 == v2,
        size1 == size2,
    ensures
        qr_symbol_of(v1) == qr_symbol_of(v2),
        linear_verdict(v1) == linear_verdict(v2),
        ean13_modules_of(v1.take(12)) == ean13_modules_of(v2.take(12)),
        qr_symbol_of(v1) is Some ==> ({
            let rows = qr_symbol_of(v1)->Some_0;
            let s = scale_of(rows.len() as int, size1 as int);
            &&& svg_markup(rows, s) == svg_markup(
                qr_symbol_of(v2)->Some_0,
                scale_of(qr_symbol_of(v2)->Some_0.len() as int, size2 as int),
            )
            &&& matrix_raster(rows, s) == matrix_raster(
                qr_symbol_of(v2)->Some_0,
                scale_of(qr_symbol_of(v2)->Some_0.len() as int, size2 as int),
            )
        }),
{
}

} // verus!
