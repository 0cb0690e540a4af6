//! Shared rasterizer: scales an abstract symbol to a target output
//! dimension and produces an 8-bit grayscale pixel buffer, 0 for a dark
//! module and 255 for a light one. Scaling follows min-dimension
//! semantics: the smallest whole-module scale whose result is at least the
//! requested size in each direction. No quiet-zone border is added.

use vstd::prelude::*;

use vstd::arithmetic::div_mod::lemma_fundamental_div_mod;
use vstd::arithmetic::div_mod::lemma_fundamental_div_mod_converse;
use vstd::arithmetic::div_mod::lemma_mod_bound;
use vstd::arithmetic::div_mod::lemma_multiply_divide_lt;

use crate::ean13::BarPattern;
use crate::errors::RenderError;
use crate::matrix::BitMatrix;

verus! {

/// The integer module-pixel scale factor for min-dimension scaling: the
/// smallest positive factor that brings `count` modules to at least `size`
/// pixels.
pub open spec fn scale_of(count: int, size: int) -> int {
    let q = (size + count - 1) / count;
    if q < 1 {
        1
    } else {
        q
    }
}

/// Min-dimension scaling covers the requested size with the smallest
/// positive whole-module scale, and overshoots by less than one module
/// row.
pub proof fn lemma_scale_covers(count: int, size: int)
    requires
        1 <= count,
        0 <= size,
    ensures
        1 <= scale_of(count, size),
        scale_of(count, size) * count >= size,
        scale_of(count, size) * count <= size + count,
        scale_of(count, size) > 1 ==> (scale_of(count, size) - 1) * count < size,
        size >= 1 ==> scale_of(count, size) <= size,
        size == 0 ==> scale_of(count, size) == 1,
{
    let q = (size + count - 1) / count;
    lemma_fundamental_div_mod(size + count - 1, count);
    lemma_mod_bound(size + count - 1, count);
    assert(count * q == size + count - 1 - ((size + count - 1) % count));
    if q < 1 {
        assert(scale_of(count, size) * count == count);
        assert(count * q >= size + count - 1 - (count - 1));
        assert(count >= count * 1 > count * q) by (nonlinear_arith)
            requires 1 > q && count >= 1,
        ;
        assert(size <= count);
        if size >= 1 {
            assert(count * q <= 0) by (nonlinear_arith)
                requires q <= 0 && count >= 1,
            ;
            assert(false);
        }
    } else {
        assert(scale_of(count, size) == q);
        assert(q * count == count * q) by (nonlinear_arith);
        assert((q - 1) * count == count * q - count) by (nonlinear_arith);
        if size == 0 {
            assert(count * q <= count - 1);
            assert(count * q >= count * 1) by (nonlinear_arith)
                requires q >= 1 && count >= 1,
            ;
            assert(false);
        }
        if q > size {
            assert(count * q >= count * (size + 1)) by (nonlinear_arith)
                requires count >= 1 && q >= size + 1,
            ;
            assert(count * (size + 1) == count * size + count) by (nonlinear_arith);
            assert(count * size >= size) by (nonlinear_arith)
                requires count >= 1 && size >= 0,
            ;
            assert(false);
        }
    }
}

/// An 8-bit grayscale image: one channel per pixel, row-major, 0 black
/// and 255 white.
pub struct PixelBuf {
    /// Width in pixels.
    pub width: u32,
    /// Height in pixels.
    pub height: u32,
    /// The `width * height` pixel values, row-major.
    pub data: Vec<u8>,
}

impl PixelBuf {
    /// Structural validity: the buffer holds exactly one byte per pixel.
    pub open spec fn wf(&self) -> bool {
        self.data@.len() == self.width * self.height
    }
}

/// The grayscale value of pixel column `x`, row `y` when a module grid is
/// drawn at `scale` pixels per module.
pub open spec fn matrix_pixel(rows: Seq<Seq<bool>>, scale: int, x: int, y: int) -> u8 {
    if rows[y / scale][x / scale] {
        0u8
    } else {
        255u8
    }
}

/// The raster of a square module grid at `scale` pixels per module: a
/// row-major buffer of side·scale pixels each way.
pub open spec fn matrix_raster(rows: Seq<Seq<bool>>, scale: int) -> Seq<u8> {
    let w = rows.len() * scale;
    Seq::new((w * w) as nat, |k: int| matrix_pixel(rows, scale, k % w, k / w))
}

/// The grayscale value of pixel column `x` when a bar pattern is drawn at
/// `scale` pixels per module; every row of the raster is identical.
pub open spec fn linear_pixel(modules: Seq<u8>, scale: int, x: int) -> u8 {
    if modules[x / scale] == 1 {
        0u8
    } else {
        255u8
    }
}

/// The raster of a bar pattern at `scale` pixels per module and the given
/// height in pixels.
pub open spec fn linear_raster(modules: Seq<u8>, scale: int, height: int) -> Seq<u8> {
    let w = modules.len() * scale;
    Seq::new((w * height) as nat, |k: int| linear_pixel(modules, scale, k % w))
}

/// Computes the module-pixel scale factor for min-dimension scaling.
pub fn scale_for(count: u64, size: u32) -> (r: u64)
    requires
        1 <= count <= 0xFFFF_FFFF,
    ensures
        r == scale_of(count as int, size as int),
        1 <= r <= 0xFFFF_FFFF,
        r * count >= size,
        r * count <= size + count,
{
    proof {
        lemma_scale_covers(count as int, size as int);
    }
    let q = ((size as u64) + count - 1) / count;
    if q == 0 {
        1
    } else {
        q
    }
}

/// Rasterizes a matrix symbol to at least `size` pixels in each direction.
///
/// Fails with `EncodeFailure` exactly when the scaled dimensions cannot be
/// represented (wider than a 32-bit pixel count, or a buffer larger than
/// the address space); such a failure is internal, not a property of the
/// payload.
pub fn rasterize_matrix(m: &BitMatrix, size: u32) -> (r: Result<PixelBuf, RenderError>)
    requires
        m.wf(),
    ensures
        ({
            let s = scale_of(m.side as int, size as int);
            let w = m.side * s;
            &&& (r is Ok <==> w <= u32::MAX && w * w <= usize::MAX)
            &&& r is Ok ==> r->Ok_0.wf() && r->Ok_0.width == w && r->Ok_0.height == w
                && r->Ok_0.data@ == matrix_raster(m.rows(), s) && r->Ok_0.width >= size
                && r->Ok_0.height >= size
            &&& r is Err ==> r->Err_0 == RenderError::EncodeFailure
        }),
{
    let ghost s_spec = scale_of(m.side as int, size as int);
    let scale = scale_for(m.side as u64, size);
    proof {
        assert((m.side as u64) * scale <= 177 * 0xFFFF_FFFFu64) by (nonlinear_arith)
            requires m.side <= 177 && scale <= 0xFFFF_FFFFu64,
        ;
    }
    let w64 = (m.side as u64) * scale;
    if w64 > 0xFFFF_FFFFu64 {
        return Err(RenderError::EncodeFailure);
    }
    proof {
        assert(w64 * w64 <= 0xFFFF_FFFFu64 * 0xFFFF_FFFFu64) by (nonlinear_arith)
            requires w64 <= 0xFFFF_FFFFu64,
        ;
    }
    let len64 = w64 * w64;
    if len64 > usize::MAX as u64 {
        return Err(RenderError::EncodeFailure);
    }
    let w = w64 as usize;
    let scale_us = scale as usize;
    let ghost rows = m.rows();
    let mut data: Vec<u8> = Vec::new();
    let mut y: usize = 0;
    while y < w
        invariant
            m.wf(),
            rows == m.rows(),
            w == m.side * s_spec,
            scale_us == s_spec,
            1 <= scale_us,
            w * w <= usize::MAX,
            0 <= y <= w,
            data@.len() == y * w,
            forall|k: int|
                0 <= k < data@.len() ==> data@[k] == matrix_pixel(rows, s_spec, k % (w as int), k / (w as int)),
        decreases w - y,
    {
        let my = y / scale_us;
        proof {
            assert((scale_us as int) * (m.side as int) == (m.side as int) * (scale_us as int)) by (nonlinear_arith);
            lemma_multiply_divide_lt(y as int, scale_us as int, m.side as int);
            assert(my < m.side);
            assert(my * m.side + m.side <= m.side * m.side && m.side * m.side <= 31329) by (nonlinear_arith)
                requires 0 <= my < m.side && m.side <= 177,
            ;
        }
        let row_base = my * m.side;
        let mut x: usize = 0;
        while x < w
            invariant
                m.wf(),
                rows == m.rows(),
                w == m.side * s_spec,
                scale_us == s_spec,
                1 <= scale_us,
                w * w <= usize::MAX,
                0 <= y < w,
                0 <= x <= w,
                my == y / scale_us < m.side,
                row_base == my * m.side,
                row_base + m.side <= m.side * m.side,
                data@.len() == y * w + x,
                forall|k: int|
                    0 <= k < data@.len() ==> data@[k] == matrix_pixel(rows, s_spec, k % (w as int), k / (w as int)),
            decreases w - x,
        {
            let mx = x / scale_us;
            proof {
                assert((scale_us as int) * (m.side as int) == (m.side as int) * (scale_us as int)) by (nonlinear_arith);
                lemma_multiply_divide_lt(x as int, scale_us as int, m.side as int);
                assert(mx < m.side);
                assert(m.side * m.side <= 31329) by (nonlinear_arith)
                    requires m.side <= 177,
                ;
                assert(y * w + x < w * w) by (nonlinear_arith)
                    requires 0 <= y < w && 0 <= x < w,
                ;
                lemma_fundamental_div_mod_converse((y * w + x) as int, w as int, y as int, x as int);
                assert((y * w + x) as int % (w as int) == x as int);
                assert((y * w + x) as int / (w as int) == y as int);
                assert(rows[my as int][mx as int] == m.modules@[(row_base + mx) as int]);
            }
            let dark = m.modules[row_base + mx];
            let pix: u8 = if dark {
                0
            } else {
                255
            };
            data.push(pix);
            x = x + 1;
        }
        proof {
            assert((y + 1) * w == y * w + w) by (nonlinear_arith);
        }
        y = y + 1;
    }
    proof {
        assert(data@ =~= matrix_raster(rows, s_spec));
    }
    Ok(PixelBuf { width: w64 as u32, height: w64 as u32, data })
}

/// Rasterizes a linear symbol: each module becomes a column `scale` pixels
/// wide, the image is exactly `size` pixels tall, and the width is at
/// least `size` pixels.
///
/// Fails with `EncodeFailure` exactly when the scaled dimensions cannot be
/// represented, as for the matrix rasterizer.
pub fn rasterize_linear(p: &BarPattern, size: u32) -> (r: Result<PixelBuf, RenderError>)
    requires
        p.wf(),
        1 <= size,
    ensures
        ({
            let s = scale_of(95, size as int);
            let w = 95 * s;
            &&& (r is Ok <==> w <= u32::MAX && w * size <= usize::MAX)
            &&& r is Ok ==> r->Ok_0.wf() && r->Ok_0.width == w && r->Ok_0.height == size
                && r->Ok_0.data@ == linear_raster(p.modules@, s, size as int)
                && r->Ok_0.width >= size && r->Ok_0.height >= size
            &&& r is Err ==> r->Err_0 == RenderError::EncodeFailure
        }),
{
    let ghost s_spec = scale_of(95, size as int);
    let scale = scale_for(95, size);
    let w64 = 95 * scale;
    if w64 > 0xFFFF_FFFFu64 {
        return Err(RenderError::EncodeFailure);
    }
    proof {
        assert(w64 * (size as u64) <= 0xFFFF_FFFFu64 * 0xFFFF_FFFFu64) by (nonlinear_arith)
            requires w64 <= 0xFFFF_FFFFu64 && size <= 0xFFFF_FFFFu64,
        ;
    }
    let len64 = w64 * (size as u64);
    if len64 > usize::MAX as u64 {
        return Err(RenderError::EncodeFailure);
    }
    let w = w64 as usize;
    let h = size as usize;
    let scale_us = scale as usize;
    let mut data: Vec<u8> = Vec::new();
    let mut y: usize = 0;
    while y < h
        invariant
            p.wf(),
            w == 95 * s_spec,
            h == size,
            scale_us == s_spec,
            1 <= scale_us,
            w * h <= usize::MAX,
            0 <= y <= h,
            data@.len() == y * w,
            forall|k: int|
                0 <= k < data@.len() ==> data@[k] == linear_pixel(p.modules@, s_spec, k % (w as int)),
        decreases h - y,
    {
        let mut x: usize = 0;
        while x < w
            invariant
                p.wf(),
                w == 95 * s_spec,
                h == size,
                scale_us == s_spec,
                1 <= scale_us,
                w * h <= usize::MAX,
                0 <= y < h,
                0 <= x <= w,
                data@.len() == y * w + x,
                forall|k: int|
                    0 <= k < data@.len() ==> data@[k] == linear_pixel(p.modules@, s_spec, k % (w as int)),
            decreases w - x,
        {
            let mx = x / scale_us;
            proof {
                assert((scale_us as int) * 95 == 95 * (scale_us as int)) by (nonlinear_arith);
                lemma_multiply_divide_lt(x as int, scale_us as int, 95int);
                assert(mx < 95);
                assert(y * w + x < w * h) by (nonlinear_arith)
                    requires 0 <= y < h && 0 <= x < w,
                ;
                lemma_fundamental_div_mod_converse((y * w + x) as int, w as int, y as int, x as int);
                assert((y * w + x) as int % (w as int) == x as int);
            }
            let dark = p.modules[mx] == 1;
            let pix: u8 = if dark {
                0
            } else {
                255
            };
            data.push(pix);
            x = x + 1;
        }
        proof {
            assert((y + 1) * w == y * w + w) by (nonlinear_arith);
        }
        y = y + 1;
    }
    proof {
        assert(h * w == w * h) by (nonlinear_arith);
        assert(data@ =~= linear_raster(p.modules@, s_spec, size as int));
    }
    Ok(PixelBuf { width: w64 as u32, height: size, data })
}

} // verus!
