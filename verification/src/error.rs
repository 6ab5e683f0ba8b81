//! The ways an operation of this library can fail.

use vstd::prelude::*;
use vstd::string::StringExecFns;

verus! {

/// Why a container could not be read or a payload could not be etched.
#[derive(PartialEq, Eq, Structural, Debug, Copy, Clone)]
pub enum EtchError {
    /// Fewer bytes than a container header has.
    TruncatedHeader,
    /// The first six header bytes are not valid UTF-8.
    InvalidHeader,
    /// The magic tag names no known mode.
    UnknownFormat,
    /// The payload has more bits than a vector can hold.
    PayloadTooLarge,
    /// The settings describe no canvas that blocks can be laid out on.
    InvalidSettings,
    /// The file named as a source does not exist.
    MissingFile,
}

impl EtchError {
    /// What the failure reads like.
    pub open spec fn text(self) -> Seq<char> {
        match self {
            EtchError::TruncatedHeader => "Truncated header"@,
            EtchError::InvalidHeader => "Invalid header format"@,
            EtchError::UnknownFormat => "Unknown file format"@,
            EtchError::PayloadTooLarge => "Payload too large"@,
            EtchError::InvalidSettings => "Invalid settings"@,
            EtchError::MissingFile => "File does not exist"@,
        }
    }

    /// A message that describes the failure.
    pub fn message(&self) -> (message: String)
        ensures
            message@ == self.text(),
    {
        match self {
            EtchError::TruncatedHeader => String::from_str("Truncated header"),
            EtchError::InvalidHeader => String::from_str("Invalid header format"),
            EtchError::UnknownFormat => String::from_str("Unknown file format"),
            EtchError::PayloadTooLarge => String::from_str("Payload too large"),
            EtchError::InvalidSettings => String::from_str("Invalid settings"),
            EtchError::MissingFile => String::from_str("File does not exist"),
        }
    }
}

} // verus!
