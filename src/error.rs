use vstd::prelude::*;

verus! {

/// Why decoding a map update failed.
#[derive(Clone, Copy, Debug, PartialEq, Eq, Structural)]
pub enum MapError {
    /// The text is not valid base64.
    Decode,
    /// The decoded payload is too short to hold a stream header.
    Format,
    /// The compressed stream is invalid.
    Decompress,
    /// The trace data ends in a partial record.
    MalformedRecord,
}

impl MapError {
    /// A short description of the error.
    pub fn message(&self) -> (r: &'static str)
        ensures
            r@ == match self {
                MapError::Decode => "Invalid base64 data"@,
                MapError::Format => "Invalid 7z compressed data"@,
                MapError::Decompress => "Invalid compressed stream"@,
                MapError::MalformedRecord => "Invalid trace points length"@,
            },
    {
        match self {
            MapError::Decode => "Invalid base64 data",
            MapError::Format => "Invalid 7z compressed data",
            MapError::Decompress => "Invalid compressed stream",
            MapError::MalformedRecord => "Invalid trace points length",
        }
    }
}

} // verus!
