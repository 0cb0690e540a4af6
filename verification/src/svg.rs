//! Vector output: builds a standalone SVG document for a matrix symbol.
//! Every dark module becomes one filled path segment over a light
//! background rectangle, at the computed module-pixel scale, with the
//! fixed black-on-white palette and no quiet zone.

use vstd::prelude::*;

use vstd::arithmetic::div_mod::lemma_fundamental_div_mod_converse;
use vstd::string::StringExecFns;

use crate::matrix::BitMatrix;
use crate::raster::scale_of;
use crate::raster::scale_for;

verus! {

/// The ASCII character of a single decimal digit.
pub open spec fn digit_char(d: int) -> char {
    if d == 0 {
        '0'
    } else if d == 1 {
        '1'
    } else if d == 2 {
        '2'
    } else if d == 3 {
        '3'
    } else if d == 4 {
        '4'
    } else if d == 5 {
        '5'
    } else if d == 6 {
        '6'
    } else if d == 7 {
        '7'
    } else if d == 8 {
        '8'
    } else {
        '9'
    }
}

/// The decimal representation of a nonnegative integer, without sign or
/// padding.
pub open spec fn dec_chars(n: int) -> Seq<char>
    decreases n,
{
    if n < 10 {
        seq![digit_char(n)]
    } else {
        dec_chars(n / 10).push(digit_char(n % 10))
    }
}

/// One path segment drawing a dark module: a square of `s` pixels a side
/// whose top-left corner is at (`xpx`, `ypx`).
pub open spec fn svg_segment(xpx: int, ypx: int, s: int) -> Seq<char> {
    "M"@ + dec_chars(xpx) + " "@ + dec_chars(ypx) + "h"@ + dec_chars(s) + "v"@ + dec_chars(s)
        + "H"@ + dec_chars(xpx) + "V"@ + dec_chars(ypx)
}

/// The path segments of the first `count` modules in row-major order:
/// one segment per dark module, nothing for a light one.
pub open spec fn svg_path(rows: Seq<Seq<bool>>, scale: int, count: int) -> Seq<char>
    decreases count,
{
    if count <= 0 {
        Seq::empty()
    } else {
        let side = rows.len() as int;
        let i = count - 1;
        let y = i / side;
        let x = i % side;
        svg_path(rows, scale, i) + (
        if rows[y][x] {
            svg_segment(x * scale, y * scale, scale)
        } else {
            Seq::<char>::empty()
        })
    }
}

/// The document head up to the path data, for a square image `w` pixels a
/// side: XML declaration, the svg element, the white background rectangle,
/// and the opening of the black path.
pub open spec fn svg_head(w: int) -> Seq<char> {
    "<?xml version=\"1.0\" standalone=\"yes\"?><svg xmlns=\"http://www.w3.org/2000/svg\" version=\"1.1\" width=\""@
        + dec_chars(w) + "\" height=\""@ + dec_chars(w) + "\" viewBox=\"0 0 "@ + dec_chars(w)
        + " "@ + dec_chars(w) + "\" shape-rendering=\"crispEdges\"><rect x=\"0\" y=\"0\" width=\""@
        + dec_chars(w) + "\" height=\""@ + dec_chars(w) + "\" fill=\"#ffffff\"/><path fill=\"#000000\" d=\""@
}

/// The complete SVG document for a module grid at `scale` pixels per
/// module.
pub open spec fn svg_markup(rows: Seq<Seq<bool>>, scale: int) -> Seq<char> {
    svg_head(rows.len() * scale) + svg_path(rows, scale, (rows.len() * rows.len()) as int)
        + "\"/></svg>"@
}

/// The one-character string of a decimal digit.
fn digit_str(d: u64) -> (r: &'static str)
    requires
        d <= 9,
    ensures
        r@ == seq![digit_char(d as int)],
{
    proof {
        reveal_strlit("0");
        reveal_strlit("1");
        reveal_strlit("2");
        reveal_strlit("3");
        reveal_strlit("4");
        reveal_strlit("5");
        reveal_strlit("6");
        reveal_strlit("7");
        reveal_strlit("8");
        reveal_strlit("9");
    }
    let r = if d == 0 {
        "0"
    } else if d == 1 {
        "1"
    } else if d == 2 {
        "2"
    } else if d == 3 {
        "3"
    } else if d == 4 {
        "4"
    } else if d == 5 {
        "5"
    } else if d == 6 {
        "6"
    } else if d == 7 {
        "7"
    } else if d == 8 {
        "8"
    } else {
        "9"
    };
    proof {
        assert(r@ =~= seq![digit_char(d as int)]);
    }
    r
}

/// Formats a number in decimal.
pub fn u64_to_dec(n: u64) -> (r: String)
    ensures
        r@ == dec_chars(n as int),
    decreases n,
{
    if n < 10 {
        let s = digit_str(n);
        let r = s.to_owned();
        proof {
            assert(r@ =~= dec_chars(n as int));
        }
        r
    } else {
        let mut r = u64_to_dec(n / 10);
        let s = digit_str(n % 10);
        r.append(s);
        proof {
            assert(r@ =~= dec_chars(n as int));
        }
        r
    }
}

/// The path segment of one dark module as a string.
fn segment_str(xpx: u64, ypx: u64, scale: u64) -> (r: String)
    ensures
        r@ == svg_segment(xpx as int, ypx as int, scale as int),
{
    let mut seg = String::new();
    seg.append("M");
    proof {
        assert(seg@ =~= "M"@);
    }
    let xs = u64_to_dec(xpx);
    seg.append(xs.as_str());
    seg.append(" ");
    let ys = u64_to_dec(ypx);
    seg.append(ys.as_str());
    seg.append("h");
    let ss = u64_to_dec(scale);
    seg.append(ss.as_str());
    seg.append("v");
    seg.append(ss.as_str());
    seg.append("H");
    seg.append(xs.as_str());
    seg.append("V");
    seg.append(ys.as_str());
    seg
}

/// Builds the SVG document for a matrix symbol scaled to at least `size`
/// pixels in each direction.
pub fn svg_for_matrix(m: &BitMatrix, size: u32) -> (r: String)
    requires
        m.wf(),
    ensures
        r@ == svg_markup(m.rows(), scale_of(m.side as int, size as int)),
{
    let ghost rows = m.rows();
    let ghost s_spec = scale_of(m.side as int, size as int);
    let scale = scale_for(m.side as u64, size);
    proof {
        assert((m.side as u64) * scale <= 177 * 0xFFFF_FFFFu64) by (nonlinear_arith)
            requires m.side <= 177 && scale <= 0xFFFF_FFFFu64,
        ;
    }
    let w64 = (m.side as u64) * scale;
    let wstr = u64_to_dec(w64);
    let mut out = String::new();
    out.append("<?xml version=\"1.0\" standalone=\"yes\"?><svg xmlns=\"http://www.w3.org/2000/svg\" version=\"1.1\" width=\"");
    proof {
        assert(out@
            =~= "<?xml version=\"1.0\" standalone=\"yes\"?><svg xmlns=\"http://www.w3.org/2000/svg\" version=\"1.1\" width=\""@);
    }
    out.append(wstr.as_str());
    out.append("\" height=\"");
    out.append(wstr.as_str());
    out.append("\" viewBox=\"0 0 ");
    out.append(wstr.as_str());
    out.append(" ");
    out.append(wstr.as_str());
    out.append("\" shape-rendering=\"crispEdges\"><rect x=\"0\" y=\"0\" width=\"");
    out.append(wstr.as_str());
    out.append("\" height=\"");
    out.append(wstr.as_str());
    out.append("\" fill=\"#ffffff\"/><path fill=\"#000000\" d=\"");
    proof {
        assert(out@ == svg_head(m.side * s_spec));
        assert(svg_path(rows, s_spec, 0) == Seq::<char>::empty());
        assert(out@ + svg_path(rows, s_spec, 0) =~= out@);
    }
    let side = m.side;
    let mut y: usize = 0;
    while y < side
        invariant
            m.wf(),
            side == m.side,
            rows == m.rows(),
            s_spec == scale,
            1 <= scale <= 0xFFFF_FFFFu64,
            0 <= y <= side,
            out@ == svg_head(m.side * s_spec) + svg_path(rows, s_spec, (y * side) as int),
        decreases side - y,
    {
        proof {
            assert((y + 1) * side <= side * side && (y + 1) * side == y * side + side)
                by (nonlinear_arith)
                requires 0 <= y < side,
            ;
        }
        let mut x: usize = 0;
        while x < side
            invariant
                m.wf(),
                side == m.side,
                rows == m.rows(),
                s_spec == scale,
                1 <= scale <= 0xFFFF_FFFFu64,
                0 <= y < side,
                0 <= x <= side,
                y * side + side <= side * side,
                out@ == svg_head(m.side * s_spec) + svg_path(rows, s_spec, (y * side + x) as int),
            decreases side - x,
        {
            proof {
                assert(side * side <= 31329) by (nonlinear_arith)
                    requires side <= 177,
                ;
            }
            let i = y * side + x;
            proof {
                lemma_fundamental_div_mod_converse(i as int, side as int, y as int, x as int);
                assert(i as int / (side as int) == y as int);
                assert(i as int % (side as int) == x as int);
                assert(rows[y as int][x as int] == m.modules@[i as int]);
            }
            if m.modules[i] {
                proof {
                    assert((x as u64) * scale <= 177 * 0xFFFF_FFFFu64 && (y as u64) * scale <= 177
                        * 0xFFFF_FFFFu64) by (nonlinear_arith)
                        requires x < 177 && y < 177 && scale <= 0xFFFF_FFFFu64,
                    ;
                }
                let xpx = (x as u64) * scale;
                let ypx = (y as u64) * scale;
                let ghost before = out@;
                let seg = segment_str(xpx, ypx, scale);
                out.append(seg.as_str());
                proof {
                    let head = svg_head(m.side * s_spec);
                    let p = svg_path(rows, s_spec, i as int);
                    assert(svg_path(rows, s_spec, i + 1) == p + seg@);
                    assert((head + p) + seg@ =~= head + (p + seg@));
                }
            } else {
                proof {
                    assert(svg_path(rows, s_spec, i + 1) == svg_path(rows, s_spec, i as int)
                        + Seq::<char>::empty());
                    assert(svg_path(rows, s_spec, i as int) + Seq::<char>::empty() =~= svg_path(
                        rows,
                        s_spec,
                        i as int,
                    ));
                }
            }
            x = x + 1;
        }
        y = y + 1;
    }
    out.append("\"/></svg>");
    proof {
        assert((side * side) as int == (rows.len() * rows.len()) as int);
        assert(out@ =~= svg_markup(rows, s_spec));
    }
    out
}

} // verus!
