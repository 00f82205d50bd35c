//! The palette from which anchor pairs take their colours.

use vstd::prelude::*;

use crate::error::{FlowError, FlowResult};

verus! {

/// A colour of the palette.
#[derive(Debug, Clone, Copy, PartialEq, Eq, Structural)]
pub enum Color {
    Red,
    Yellow,
    Orange,
    Green,
    Blue,
    Purple,
    Pink,
    Gray,
}

/// The colours in the order in which they are handed out.
pub open spec fn palette() -> Seq<Color> {
    seq![
        Color::Red,
        Color::Orange,
        Color::Blue,
        Color::Pink,
        Color::Yellow,
        Color::Green,
        Color::Purple,
        Color::Gray,
    ]
}

impl Color {
    /// The place of this colour in [`palette`].
    pub open spec fn rank(self) -> int {
        match self {
            Color::Red => 0,
            Color::Orange => 1,
            Color::Blue => 2,
            Color::Pink => 3,
            Color::Yellow => 4,
            Color::Green => 5,
            Color::Purple => 6,
            Color::Gray => 7,
        }
    }

    /// The colour that follows this one in the palette, if any does.
    pub open spec fn spec_next(self) -> FlowResult<Color> {
        if self.rank() + 1 < palette().len() {
            Ok(palette()[self.rank() + 1])
        } else {
            Err(FlowError::NoMoreColors)
        }
    }

    /// The colour handed out after this one. The last colour of the palette
    /// has no successor.
    #[verifier::when_used_as_spec(spec_next)]
    pub fn next(self) -> (r: FlowResult<Color>)
        ensures
            r == self.spec_next(),
    {
        match self {
            Color::Red => Ok(Color::Orange),
            Color::Orange => Ok(Color::Blue),
            Color::Blue => Ok(Color::Pink),
            Color::Pink => Ok(Color::Yellow),
            Color::Yellow => Ok(Color::Green),
            Color::Green => Ok(Color::Purple),
            Color::Purple => Ok(Color::Gray),
            Color::Gray => Err(FlowError::NoMoreColors),
        }
    }
}

impl Default for Color {
    /// The first colour of the palette.
    fn default() -> (c: Color)
        ensures
            c == Color::Red,
    {
        Color::Red
    }
}

} // verus!
