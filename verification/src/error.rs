//! What can go wrong between a seed and a file.

use vstd::prelude::*;

verus! {

/// Why a raster could not be produced or handed over.
#[derive(Debug, PartialEq, Eq)]
pub enum FieldError {
    /// The pixel count does not fit the buffer's length.
    DimensionOverflow,
    /// A buffer does not hold exactly one sample per pixel, or a row of
    /// the image is too wide to be counted.
    ShapeMismatch,
    /// The encoder refused the image; the text is its own.
    Encoding(String),
}

impl FieldError {
    /// What `describe` says of an error.
    pub open spec fn description(self) -> Seq<char> {
        match self {
            FieldError::DimensionOverflow => "Width and height are too large to be multiplied"@,
            FieldError::ShapeMismatch => "Error while converting pixels to image buffer"@,
            FieldError::Encoding(text) => text@,
        }
    }

    /// The error in words.
    pub fn describe(&self) -> (text: String)
        ensures
            text@ == self.description(),
    {
        match self {
            FieldError::DimensionOverflow => String::from_str(
                "Width and height are too large to be multiplied",
            ),
            FieldError::ShapeMismatch => String::from_str(
                "Error while converting pixels to image buffer",
            ),
            FieldError::Encoding(text) => text.clone(),
        }
    }
}

} // verus!
