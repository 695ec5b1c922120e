//! Error taxonomy: parse failures abort construction of a file handle;
//! decode failures are scoped to one submessage.

use vstd::prelude::*;

verus! {

/// A violation of the GRIB2 envelope or section grammar found while scanning.
#[derive(Debug, Clone, Copy, PartialEq, Eq, Structural)]
pub enum ParseError {
    /// The stream does not begin with the ASCII magic `GRIB`.
    NotGrib,
    /// The edition byte of the indicator section is not 2.
    GribVersionMismatch(u8),
    /// A section header carries a number outside the known set.
    UnknownSectionNumber(u8),
    /// A section number that the grammar does not allow at this point.
    InvalidSectionOrder(u8),
    /// A section length that is too small or overruns its message.
    InvalidSectionLength,
    /// The stream ended before the grammar was complete.
    TruncatedStream,
    /// The four bytes where the terminator was owed are not `7777`.
    MissingTerminator,
    /// The declared total message length does not fit the stream.
    TotalLengthMismatch,
}

/// A failure of the direct bit-packed decoding path.
#[derive(Debug, Clone, Copy, PartialEq, Eq, Structural)]
pub enum SimplePackingDecodeError {
    /// The original-field-value type is not the supported floating-point kind.
    OriginalFieldValueTypeNotSupported,
    /// A per-sample bit width beyond what this decoder unpacks.
    BitsPerValueTooLarge,
    /// The packed data does not hold the declared number of points.
    LengthMismatch,
}

/// A failure of the compressed-codestream decoding path.
#[derive(Debug, Clone, Copy, PartialEq, Eq, Structural)]
pub enum Jpeg2000CodeStreamDecodeError {
    /// The codestream is recognized but not decodable here
    /// (for example, more than one component).
    NotSupported,
    /// The external codec could not be configured.
    DecoderSetupError,
    /// The external codec rejected the codestream's main header.
    MainHeaderReadError,
    /// The external codec failed while decoding the codestream body.
    BodyReadError,
    /// The codec's sample count disagrees with its reported geometry.
    LengthMismatch,
}

/// A failure while decoding one submessage.
#[derive(Debug, Clone, Copy, PartialEq, Eq, Structural)]
pub enum DecodeError {
    /// The data-representation template is not one of the known schemes.
    TemplateNotSupported(u16),
    /// A bitmap is present (indicator other than 255), which is unsupported.
    BitMapIndicatorUnsupported,
    SimplePackingDecodeError(SimplePackingDecodeError),
    Jpeg2000CodeStreamDecodeError(Jpeg2000CodeStreamDecodeError),
}

/// Any failure the library reports to its callers.
#[derive(Debug, Clone, Copy, PartialEq, Eq, Structural)]
pub enum GribError {
    /// An internal index disagreed with the scanned sections.
    InternalDataError,
    /// A submessage index at or beyond the number of submessages.
    IndexOutOfRange(usize),
    ParseError(ParseError),
    DecodeError(DecodeError),
}

} // verus!
