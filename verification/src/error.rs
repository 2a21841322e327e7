//! The ways in which a run can fail before or while rendering.

use vstd::prelude::*;

verus! {

/// A fault in the arguments that a run was started with.
#[derive(Clone, Copy, Debug, PartialEq, Eq, Structural)]
pub enum ArgumentError {
    /// No path to a picture was given.
    MissingArgument,
    /// The scale factor does not lie in the interval `(0, 1]`.
    ScaleOutOfBound,
}

impl ArgumentError {
    /// The text shown to the user for this fault.
    pub open spec fn message_text(self) -> Seq<char> {
        match self {
            ArgumentError::MissingArgument => "Please provide path to the original image."@,
            ArgumentError::ScaleOutOfBound => "The scaling factor should be between 0 and 1."@,
        }
    }

    /// The text shown to the user for this fault.
    pub fn message(&self) -> (text: String)
        ensures
            text@ == self.message_text(),
    {
        match self {
            ArgumentError::MissingArgument => "Please provide path to the original image.".to_owned(),
            ArgumentError::ScaleOutOfBound => "The scaling factor should be between 0 and 1.".to_owned(),
        }
    }
}

/// A fault that stops the rendering of a picture.
#[derive(Clone, Copy, Debug, PartialEq, Eq, Structural)]
pub enum RenderError {
    /// The font data could not be read as a font, or not as one in which
    /// the glyphs of the palette can be laid out.
    FontUnreadable,
    /// The canvas for the picture would exceed the size that can be drawn on.
    CanvasTooLarge,
}

impl RenderError {
    /// The text shown to the user for this fault.
    pub open spec fn message_text(self) -> Seq<char> {
        match self {
            RenderError::FontUnreadable => "The font could not be read."@,
            RenderError::CanvasTooLarge => "The picture is too large to render at this scale."@,
        }
    }

    /// The text shown to the user for this fault.
    pub fn message(&self) -> (text: String)
        ensures
            text@ == self.message_text(),
    {
        match self {
            RenderError::FontUnreadable => "The font could not be read.".to_owned(),
            RenderError::CanvasTooLarge => "The picture is too large to render at this scale.".to_owned(),
        }
    }
}

} // verus!
