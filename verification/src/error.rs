//! The ways a conversion can fail.

use vstd::prelude::*;

verus! {

/// Why no text was produced.
#[derive(Clone, Copy, Debug, PartialEq, Eq, Structural)]
pub enum ConvertError {
    /// The output mode is neither 3 nor 4.
    UnsupportedMode { mode: u8 },
    /// The bytes are neither a paletted PNG nor a paletted BMP.
    UnparseableImage,
    /// The pixel at `position` has the index `index`, and the palette has only
    /// `palette_len` entries.
    IndexOutOfRange { position: usize, index: u8, palette_len: usize },
}

impl ConvertError {
    /// The diagnostic for this error, as a sequence of characters.
    pub open spec fn message_text(self) -> Seq<char> {
        match self {
            ConvertError::UnsupportedMode { .. } =>
                "Unsupported output mode! Only 3 and 4 work right now."@,
            ConvertError::UnparseableImage => "Couldn't parse file as paletted PNG or BMP"@,
            ConvertError::IndexOutOfRange { .. } => "Palette index out of range"@,
        }
    }

    /// The diagnostic for this error.
    pub fn message(&self) -> (text: String)
        ensures
            text@ == self.message_text(),
    {
        match self {
            ConvertError::UnsupportedMode { .. } => String::from_str(
                "Unsupported output mode! Only 3 and 4 work right now.",
            ),
            ConvertError::UnparseableImage => String::from_str(
                "Couldn't parse file as paletted PNG or BMP",
            ),
            ConvertError::IndexOutOfRange { .. } => String::from_str("Palette index out of range"),
        }
    }
}

} // verus!
