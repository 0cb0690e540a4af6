//! Linear symbol encoder: turns a fixed-length numeric payload into the
//! 95-module bar pattern of the standard retail barcode, validating the
//! digit count and the weighted modulo-10 check digit.

use vstd::prelude::*;

use crate::codec::png_bytes_of;
use crate::codec::png_encode;
use crate::errors::EncodeError;
use crate::raster::linear_raster;
use crate::raster::rasterize_linear;
use crate::raster::scale_of;

verus! {

/// True when `c` is an ASCII decimal digit.
pub open spec fn is_digit_char(c: char) -> bool {
    48 <= c as u32 <= 57
}

/// Numeric value of an ASCII decimal digit.
pub open spec fn digit_val(c: char) -> u8 {
    ((c as u32) - 48) as u8
}

/// True when every character of `s` is an ASCII decimal digit.
pub open spec fn all_digits(s: Seq<char>) -> bool {
    forall|i: int| 0 <= i < s.len() ==> is_digit_char(#[trigger] s[i])
}

/// The digit values of a numeric character sequence.
pub open spec fn digits_of(s: Seq<char>) -> Seq<u8> {
    s.map_values(|c: char| digit_val(c))
}

/// Sum of the digits with weight 3 at odd positions and weight 1 at even
/// positions (position 0 is the leftmost digit).
pub open spec fn weighted_sum(ds: Seq<u8>) -> int
    decreases ds.len(),
{
    if ds.len() == 0 {
        0
    } else {
        weighted_sum(ds.drop_last()) + ds.last() * (
        if (ds.len() - 1) % 2 == 1 {
            3int
        } else {
            1int
        })
    }
}

/// The check digit that the weighted modulo-10 algorithm assigns to the
/// 12 data digits.
pub open spec fn check_digit(ds: Seq<u8>) -> u8 {
    ((10 - (weighted_sum(ds) % 10)) % 10) as u8
}

/// The verdict of `encode_linear` on a payload, before the bar pattern
/// itself is computed: either the 13 digits of the symbol (12 data digits
/// and the check digit), or the exact error owed for the payload.
pub open spec fn linear_verdict(v: Seq<char>) -> Result<Seq<u8>, EncodeError> {
    if v.len() != 12 && v.len() != 13 {
        Err(EncodeError::InvalidInput)
    } else if !all_digits(v) {
        Err(EncodeError::InvalidInput)
    } else if v.len() == 13 && digit_val(v[12]) != check_digit(digits_of(v).take(12)) {
        Err(EncodeError::ChecksumMismatch)
    } else {
        Ok(digits_of(v).take(12).push(check_digit(digits_of(v).take(12))))
    }
}

/// The 95-module bar pattern that the linear symbology assigns to a
/// payload of 12 data digits.
pub uninterp spec fn ean13_modules_of(digits: Seq<char>) -> Seq<u8>;

/// Relies on barcoders' EAN-13 encoder (`EAN13::new` then `encode`): a
/// 12-digit numeric string is always accepted, the check digit is derived
/// from the data digits, and the result is the symbol's 95 modules, each
/// 1 (bar) or 0 (space), framed by the standard left, center and right
/// guard patterns.
#[verifier::external_body]
fn ean13_encode(value: &str) -> (r: Vec<u8>)
    requires
        value@.len() == 12,
        all_digits(value@),
    ensures
        r@ == ean13_modules_of(value@),
        r@.len() == 95,
        forall|i: int| 0 <= i < 95 ==> r@[i] == 0 || r@[i] == 1,
        r@.subrange(0, 3) == seq![1u8, 0u8, 1u8],
        r@.subrange(45, 50) == seq![0u8, 1u8, 0u8, 1u8, 0u8],
        r@.subrange(92, 95) == seq![1u8, 0u8, 1u8],
{
    let barcode = barcoders::sym::ean13::EAN13::new(value).unwrap();
    barcode.encode()
}

/// An abstract linear symbol: the 13 digits it stands for and the ordered
/// sequence of its 95 module widths.
pub struct BarPattern {
    /// The 12 data digits followed by the check digit.
    pub digits: Vec<u8>,
    /// The symbol's modules in order: 1 is a bar, 0 a space. The left and
    /// right guards and the center pattern are included.
    pub modules: Vec<u8>,
}

impl BarPattern {
    /// Structural validity: 13 decimal digits whose last one is the
    /// weighted modulo-10 check digit, and 95 binary modules framed by
    /// the standard left, center and right guard patterns.
    pub open spec fn wf(&self) -> bool {
        &&& self.digits@.len() == 13
        &&& (forall|i: int| 0 <= i < 13 ==> #[trigger] self.digits@[i] <= 9)
        &&& self.digits@[12] == check_digit(self.digits@.take(12))
        &&& self.modules@.len() == 95
        &&& (forall|i: int| 0 <= i < 95 ==> #[trigger] self.modules@[i] == 0 || self.modules@[i] == 1)
        &&& self.modules@.subrange(0, 3) == seq![1u8, 0u8, 1u8]
        &&& self.modules@.subrange(45, 50) == seq![0u8, 1u8, 0u8, 1u8, 0u8]
        &&& self.modules@.subrange(92, 95) == seq![1u8, 0u8, 1u8]
    }
}

/// Computes the weighted modulo-10 check digit of the first 12 digits.
pub fn compute_check_digit(ds: &Vec<u8>) -> (r: u8)
    requires
        ds@.len() >= 12,
        forall|i: int| 0 <= i < 12 ==> #[trigger] ds@[i] <= 9,
    ensures
        r == check_digit(ds@.take(12)),
        r <= 9,
{
    let mut sum: u32 = 0;
    let mut i: usize = 0;
    while i < 12
        invariant
            i <= 12,
            ds@.len() >= 12,
            forall|j: int| 0 <= j < 12 ==> #[trigger] ds@[j] <= 9,
            sum == weighted_sum(ds@.take(12).take(i as int)),
            sum <= i * 27,
        decreases 12 - i,
    {
        let d = ds[i];
        let w: u32 = if i % 2 == 1 {
            3
        } else {
            1
        };
        proof {
            assert(ds@.take(12).take(i + 1).drop_last() =~= ds@.take(12).take(i as int));
            assert(ds@.take(12).take(i + 1).last() == ds@[i as int]);
        }
        sum = sum + (d as u32) * w;
        i = i + 1;
    }
    proof {
        assert(ds@.take(12).take(12int) =~= ds@.take(12));
    }
    ((10 - sum % 10) % 10) as u8
}

/// Encodes a numeric payload as a linear symbol.
///
/// The payload must be 12 data digits, optionally followed by the check
/// digit. A payload of any other length, or with a character that is not a
/// decimal digit, is rejected as `InvalidInput`; a supplied 13th digit that
/// does not match the weighted modulo-10 computation is rejected as
/// `ChecksumMismatch`. On success the pattern carries the 13 digits and
/// the symbology's 95 modules for them.
pub fn encode_linear(value: &str) -> (r: Result<BarPattern, EncodeError>)
    ensures
        r is Ok <==> linear_verdict(value@) is Ok,
        r is Err ==> r->Err_0 == linear_verdict(value@)->Err_0,
        r is Ok ==> r->Ok_0.wf() && r->Ok_0.digits@ == linear_verdict(value@)->Ok_0
            && r->Ok_0.modules@ == ean13_modules_of(value@.take(12)),
        r is Ok ==> r->Ok_0.digits@[12] == check_digit(r->Ok_0.digits@.take(12)),
{
    let n = value.unicode_len();
    if n != 12 && n != 13 {
        return Err(EncodeError::InvalidInput);
    }
    let mut digits: Vec<u8> = Vec::new();
    let mut i: usize = 0;
    while i < n
        invariant
            0 <= i <= n,
            n == value@.len(),
            n == 12 || n == 13,
            digits@ == digits_of(value@.take(i as int)),
            forall|j: int| 0 <= j < i ==> is_digit_char(#[trigger] value@[j]),
            forall|j: int| 0 <= j < i ==> #[trigger] digits@[j] <= 9,
        decreases n - i,
    {
        let c = value.get_char(i);
        let code = c as u32;
        if code < 48 || code > 57 {
            return Err(EncodeError::InvalidInput);
        }
        digits.push((code - 48) as u8);
        proof {
            assert(digits@ =~= digits_of(value@.take(i + 1)));
        }
        i = i + 1;
    }
    proof {
        assert(value@.take(n as int) =~= value@);
    }
    let check = compute_check_digit(&digits);
    proof {
        assert(digits@.take(12) =~= digits_of(value@).take(12));
    }
    if n == 13 {
        if digits[12] != check {
            return Err(EncodeError::ChecksumMismatch);
        }
    } else {
        digits.push(check);
    }
    proof {
        assert(digits@ =~= digits_of(value@).take(12).push(check_digit(digits_of(value@).take(12))));
    }
    let head = if n == 13 {
        value.substring_char(0, 12)
    } else {
        value
    };
    proof {
        assert(value@.subrange(0, 12) =~= value@.take(12));
        assert(head@ =~= value@.take(12));
    }
    let modules = ean13_encode(head);
    let pattern = BarPattern { digits, modules };
    proof {
        assert(pattern.digits@.take(12) =~= digits_of(value@).take(12));
    }
    Ok(pattern)
}

/// Renders the linear symbol for `value` as PNG bytes.
///
/// Compatibility entry point: the caller must know that the payload is a
/// valid 12- or 13-digit numeric string and that the scaled dimensions
/// are representable. `render_linear_raster` performs those tests itself
/// and reports failure as a value.
pub fn gen_png_buf(value: String, size: u32) -> (r: Vec<u8>)
    requires
        1 <= size,
        linear_verdict(value@) is Ok,
        ({
            let w = 95 * scale_of(95, size as int);
            w <= u32::MAX && w * size <= usize::MAX
        }),
    ensures
        ({
            let s = scale_of(95, size as int);
            r@ == png_bytes_of(
                (95 * s) as u32,
                size,
                linear_raster(ean13_modules_of(value@.take(12)), s, size as int),
            )
        }),
{
    match encode_linear(value.as_str()) {
        Ok(p) => match rasterize_linear(&p, size) {
            Ok(buf) => png_encode(buf.width, buf.height, &buf.data),
            Err(_) => unreached(),
        },
        Err(_) => unreached(),
    }
}

} // verus!
