//! What a cell of the grid can hold.

use vstd::prelude::*;

use crate::color::Color;

verus! {

/// The content of one cell.
#[derive(Debug, Clone, Copy, PartialEq, Eq, Structural)]
pub enum Tile {
    /// Nothing; a trail may be painted here.
    Empty,
    /// An obstacle. It never changes and stops a drag.
    Wall,
    /// One of the two fixed anchors of a colour.
    Source(Color),
    /// A piece of the trail that the player painted.
    Flow(Color),
}

impl Tile {
    /// The colour that the tile carries: anchors and trail pieces have one.
    pub open spec fn spec_color(self) -> Option<Color> {
        match self {
            Tile::Flow(c) | Tile::Source(c) => Some(c),
            Tile::Empty | Tile::Wall => None,
        }
    }

    /// The tile after every trail piece of colour `col` has been taken away:
    /// such a piece becomes empty, any other tile stays.
    pub open spec fn without_flow(self, col: Color) -> Tile {
        if self == Tile::Flow(col) {
            Tile::Empty
        } else {
            self
        }
    }

    pub fn is_empty(self) -> (b: bool)
        ensures
            b == (self is Empty),
    {
        matches!(self, Tile::Empty)
    }

    pub fn is_source(self) -> (b: bool)
        ensures
            b == (self is Source),
    {
        matches!(self, Tile::Source(_))
    }

    pub fn is_wall(self) -> (b: bool)
        ensures
            b == (self is Wall),
    {
        matches!(self, Tile::Wall)
    }

    pub fn is_flow(self) -> (b: bool)
        ensures
            b == (self is Flow),
    {
        matches!(self, Tile::Flow(_))
    }

    /// The colour of an anchor or a trail piece; `None` for the other tiles.
    #[verifier::when_used_as_spec(spec_color)]
    pub fn color(self) -> (c: Option<Color>)
        ensures
            c == self.spec_color(),
    {
        match self {
            Tile::Flow(c) | Tile::Source(c) => Some(c),
            Tile::Empty | Tile::Wall => None,
        }
    }
}

impl Default for Tile {
    fn default() -> (t: Tile)
        ensures
            t == Tile::Empty,
    {
        Tile::Empty
    }
}

} // verus!
