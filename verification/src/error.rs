//! The ways in which a conversion can fail.

use vstd::prelude::*;

verus! {

/// One variant for each way in which a conversion can fail.
#[derive(Clone, Copy, Debug, PartialEq, Eq, Structural)]
pub enum ConvertError {
    /// No input file was chosen.
    NoSelection,
    /// The input file could not be opened or read.
    Io,
    /// The PNG stream is malformed or truncated.
    Decode,
    /// The decoder cannot say how large the frame buffer has to be.
    SizeUnknown,
    /// The image does not use the palette colour mode.
    NotIndexed,
    /// The image carries no palette table.
    NoPalette,
    /// The length of the palette table is not a multiple of three.
    InvalidPaletteLength,
    /// The output file could not be written.
    Write,
}

impl ConvertError {
    /// The text that describes each error.
    pub open spec fn message_text(self) -> Seq<char> {
        match self {
            ConvertError::NoSelection => "No file selected."@,
            ConvertError::Io => "Cannot read the input file."@,
            ConvertError::Decode => "Cannot decode the PNG stream."@,
            ConvertError::SizeUnknown => "Cannot determine PNG buffer size"@,
            ConvertError::NotIndexed => "PNG is not indexed."@,
            ConvertError::NoPalette => "No palette found."@,
            ConvertError::InvalidPaletteLength => "Invalid palette length."@,
            ConvertError::Write => "Cannot write the palette file."@,
        }
    }

    /// A description of the error for display to a user.
    pub fn message(&self) -> (s: String)
        ensures
            s@ == self.message_text(),
    {
        match self {
            ConvertError::NoSelection => "No file selected.".to_owned(),
            ConvertError::Io => "Cannot read the input file.".to_owned(),
            ConvertError::Decode => "Cannot decode the PNG stream.".to_owned(),
            ConvertError::SizeUnknown => "Cannot determine PNG buffer size".to_owned(),
            ConvertError::NotIndexed => "PNG is not indexed.".to_owned(),
            ConvertError::NoPalette => "No palette found.".to_owned(),
            ConvertError::InvalidPaletteLength => "Invalid palette length.".to_owned(),
            ConvertError::Write => "Cannot write the palette file.".to_owned(),
        }
    }
}

} // verus!
