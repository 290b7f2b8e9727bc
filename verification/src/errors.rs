//! The failures of the two container decoders.

use crate::strings::{concat3, decimal, to_decimal};
use vstd::prelude::*;
use vstd::string::StringExecFns;

verus! {

/// Why a decode call gave up. Every failure ends the call: neither format has
/// a point at which decoding could pick up again.
#[derive(Debug, Clone, Copy, PartialEq, Eq, Structural)]
pub enum L2Error {
    /// A read asked for `need` bytes where only `have` were left.
    OutOfBounds { have: u64, need: u64 },
    /// A variable-length integer did not end within the buffer, or within the
    /// ten bytes that 64 bits can take.
    InvalidVarint,
    /// A node of the tagged format began with a tag that names no node shape.
    UnknownTypeTag { tag: u64 },
    /// The version byte of the header names no known format generation.
    UnsupportedVersion { byte: u8 },
    /// A string field that must be UTF-8 was not.
    MalformedUtf8,
    /// The buffer does not begin with the magic bytes of the format.
    InvalidMagic,
}

/// The text that tells of a failure.
pub open spec fn message_of(error: L2Error) -> Seq<char> {
    match error {
        L2Error::OutOfBounds { have, need } => "Out of bounds: have="@ + decimal(have as nat)
            + ", need="@ + decimal(need as nat),
        L2Error::InvalidVarint => "Invalid variable-length integer"@,
        L2Error::UnknownTypeTag { tag } => "Unknown type: type_id="@ + decimal(tag as nat),
        L2Error::UnsupportedVersion { byte } => "Unsupported version: "@ + decimal(byte as nat),
        L2Error::MalformedUtf8 => "Malformed UTF-8"@,
        L2Error::InvalidMagic => "Invalid magic"@,
    }
}

impl L2Error {
    /// The text that tells of this failure.
    pub fn message(&self) -> (text: String)
        ensures
            text@ == message_of(*self),
    {
        match self {
            L2Error::OutOfBounds { have, need } => {
                let mut text = concat3(
                    "Out of bounds: have=",
                    to_decimal(*have).as_str(),
                    ", need=",
                );
                text.append(to_decimal(*need).as_str());
                text
            },
            L2Error::InvalidVarint => String::from_str("Invalid variable-length integer"),
            L2Error::UnknownTypeTag { tag } => String::from_str("Unknown type: type_id=").concat(
                to_decimal(*tag).as_str(),
            ),
            L2Error::UnsupportedVersion { byte } => String::from_str(
                "Unsupported version: ",
            ).concat(to_decimal(*byte as u64).as_str()),
            L2Error::MalformedUtf8 => String::from_str("Malformed UTF-8"),
            L2Error::InvalidMagic => String::from_str("Invalid magic"),
        }
    }
}

} // verus!
