//! The ways in which an operation on the board can fail.

use vstd::prelude::*;

verus! {

/// Why a board operation was refused.
#[derive(Clone, Copy, PartialEq, Eq, Debug, Structural)]
pub enum FlowError {
    /// A coordinate lies outside the grid.
    InvalidCoords,
    /// A coloured tile was expected where the tile is empty or a wall.
    EmptyTile,
    /// Every colour of the palette has been handed out.
    NoMoreColors,
    /// The target tile is taken by something that may not be replaced.
    TileNotEmpty,
}

pub type FlowResult<T> = Result<T, FlowError>;

impl FlowError {
    /// The error in words.
    pub open spec fn spec_message(&self) -> Seq<char> {
        match self {
            FlowError::InvalidCoords => "Invalid coordinates"@,
            FlowError::EmptyTile => "Can't drag empty square"@,
            FlowError::NoMoreColors => "No more available colors"@,
            FlowError::TileNotEmpty => "Tile is already taken"@,
        }
    }

    /// The error in words, for the player.
    pub fn message(&self) -> (s: String)
        ensures
            s@ == self.spec_message(),
    {
        match self {
            FlowError::InvalidCoords => "Invalid coordinates".to_owned(),
            FlowError::EmptyTile => "Can't drag empty square".to_owned(),
            FlowError::NoMoreColors => "No more available colors".to_owned(),
            FlowError::TileNotEmpty => "Tile is already taken".to_owned(),
        }
    }
}

} // verus!
