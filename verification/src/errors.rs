use vstd::prelude::*;

verus! {

/// Failure while turning a payload into an abstract symbol.
#[derive(Clone, Copy, Debug, PartialEq, Eq, Structural)]
pub enum EncodeError {
    /// The payload violates the symbology's character or format rules.
    InvalidInput,
    /// The payload does not fit the symbology at the configured
    /// error-correction and version policy.
    CapacityExceeded,
    /// A supplied check digit does not match the computed one.
    ChecksumMismatch,
}

/// Failure while serializing a valid abstract symbol into an image.
#[derive(Clone, Copy, Debug, PartialEq, Eq, Structural)]
pub enum RenderError {
    /// Internal serialization failure: the pixel buffer or its dimensions
    /// cannot be represented in the requested output format.
    EncodeFailure,
}

/// Failure of the whole pipeline: either stage can fail.
#[derive(Clone, Copy, Debug, PartialEq, Eq, Structural)]
pub enum Error {
    /// The symbol encoder rejected the payload.
    Encode(EncodeError),
    /// The renderer could not serialize the symbol.
    Render(RenderError),
}

} // verus!
