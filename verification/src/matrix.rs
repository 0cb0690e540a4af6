//! Matrix symbol encoder: turns an arbitrary payload into a square grid of
//! dark and light modules at a fixed low error-correction level, picking
//! the smallest symbol version whose capacity holds the payload.

use vstd::prelude::*;

use crate::errors::EncodeError;

verus! {

/// The module grid that the matrix symbology assigns to a payload at the
/// low error-correction level with automatic version selection, as rows of
/// dark flags, or `None` when no version can hold the payload.
pub uninterp spec fn qr_symbol_of(value: Seq<char>) -> Option<Seq<Seq<bool>>>;

/// An abstract matrix symbol: a square grid of modules, stored row-major,
/// `true` for a dark module. No quiet-zone border is baked in; the quiet
/// zone is a rendering-time decision.
pub struct BitMatrix {
    /// Number of modules per side.
    pub side: usize,
    /// The `side * side` modules, row-major.
    pub modules: Vec<bool>,
}

impl BitMatrix {
    /// Structural validity: a square grid whose side is one of the
    /// symbology's version sizes (4·v + 17 for versions 1 through 40).
    pub open spec fn wf(&self) -> bool {
        &&& 21 <= self.side <= 177
        &&& (self.side - 17) % 4 == 0
        &&& self.modules@.len() == self.side * self.side
    }

    /// The grid as a sequence of rows.
    pub open spec fn rows(&self) -> Seq<Seq<bool>> {
        Seq::new(
            self.side as nat,
            |y: int| Seq::new(self.side as nat, |x: int| self.modules@[y * self.side + x]),
        )
    }
}

/// Relies on qrcode's `QrCode::with_error_correction_level` at level `L`:
/// it picks the smallest normal version that fits (side 4·v + 17 for v in
/// 1..=40), `width` returns the side, `to_colors` the row-major modules,
/// and with automatic sizing the only failure is a payload that fits no
/// version.
#[verifier::external_body]
fn qr_encode(value: &str) -> (r: Result<BitMatrix, EncodeError>)
    ensures
        r is Ok <==> qr_symbol_of(value@) is Some,
        r is Ok ==> r->Ok_0.wf() && r->Ok_0.rows() == qr_symbol_of(value@)->Some_0,
        r is Err ==> r->Err_0 == EncodeError::CapacityExceeded,
{
    match qrcode::QrCode::with_error_correction_level(value, qrcode::EcLevel::L) {
        Ok(code) => {
            let side = code.width();
            let modules = code
                .to_colors()
                .into_iter()
                .map(|c| match c {
                    qrcode::Color::Dark => true,
                    qrcode::Color::Light => false,
                })
                .collect();
            Ok(BitMatrix { side, modules })
        },
        Err(_) => Err(EncodeError::CapacityExceeded),
    }
}

/// Encodes a payload as a matrix symbol.
///
/// Succeeds exactly when the payload fits some symbol version at the fixed
/// low error-correction level; a payload too large for every version is
/// rejected as `CapacityExceeded`.
pub fn encode_matrix(value: &str) -> (r: Result<BitMatrix, EncodeError>)
    ensures
        r is Ok <==> qr_symbol_of(value@) is Some,
        r is Ok ==> r->Ok_0.wf() && r->Ok_0.rows() == qr_symbol_of(value@)->Some_0,
        r is Err ==> r->Err_0 == EncodeError::CapacityExceeded,
{
    qr_encode(value)
}

} // verus!
