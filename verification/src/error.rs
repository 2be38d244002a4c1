//! What can go wrong when settings are read.

use vstd::prelude::*;

verus! {

/// The reasons for which a document is refused. Each of them refuses the
/// whole document.
#[derive(Clone, Copy, Debug, PartialEq, Eq)]
pub enum OptionsError {
    /// The text is not a well-formed document of its format.
    Syntax,
    /// A key of the settings occurs more than once.
    DuplicateKey,
    /// A number is given as something other than a 16-bit unsigned integer or
    /// a text.
    InvalidNumber,
    /// The rotation is not one of 0, 90, 180 and 270.
    InvalidRotation,
    /// The font is not the name of a font.
    InvalidFont,
    /// The touch mode is not the name of a touch mode.
    InvalidTouchMode,
    /// The behavior for sprites of height 0 is not the name of one.
    InvalidLoresBehavior,
    /// A color is not the text of a color.
    ColorParse,
    /// A quirk is neither zero nor one: an 8-bit unsigned integer other than
    /// these, which is carried, or a value of another type.
    InvalidQuirkValue(Option<u8>),
}

} // verus!
