//! Verified GRIB2 decoding core.
//!
//! A GRIB2 file is a sequence of messages, each a run of numbered sections
//! ending in a `7777` terminator.  This crate scans the section structure,
//! groups sections into decodable submessages, and recovers the raw packed
//! samples of each field together with the parameters of the affine rescale
//! that turns them into physical values.

pub mod bits;
pub mod data;
pub mod decode;
pub mod error;
pub mod scanner;
pub mod sections;
pub mod submessage;
pub mod wire;

pub use error::{
    DecodeError, GribError, Jpeg2000CodeStreamDecodeError, ParseError, SimplePackingDecodeError,
};
