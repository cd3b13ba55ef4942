//! What a text adapter hands the renderer: plain text, or text with
//! foreground-colour overrides for byte ranges.

use vstd::prelude::*;

verus! {

/// A foreground colour, as `0xAARRGGBB`, for the bytes `start..end` of a text.
#[derive(Clone, Copy, Debug, PartialEq, Eq, Structural)]
pub struct ColoredRange {
    pub start: usize,
    pub end: usize,
    pub argb: u32,
}

/// A text together with its foreground-colour overrides, in the order given.
#[derive(Debug)]
pub struct StyledText {
    pub text: String,
    pub colored_ranges: Vec<ColoredRange>,
}

/// The text of a run as the renderer receives it.
#[derive(Debug)]
pub enum PlainOrStyledText {
    Plain(String),
    Styled(StyledText),
}

} // verus!
