//! The four ways in which the cursor can move.

use random::Source;
use vstd::prelude::*;

verus! {

/// `random::Xorshift128Plus`, the generator that the `random` crate offers by
/// default. Nothing of its state is visible here.
#[verifier::external_type_specification]
#[verifier::external_body]
pub struct ExXorshift128Plus(random::Xorshift128Plus);

/// Draws the next number from `source` by `random::Source::read_u64`. The
/// number is whatever the generator gives: nothing is claimed of it.
#[verifier::external_body]
fn draw(source: &mut random::Xorshift128Plus) -> (n: u64) {
    source.read_u64()
}

/// A step of the cursor by one cell.
#[derive(Debug, Clone, Copy, PartialEq, Eq, Structural)]
pub enum Direction {
    /// Towards row 0.
    North,
    /// Towards the last row.
    South,
    /// Towards the last column.
    East,
    /// Towards column 0.
    West,
}

impl Direction {
    /// By how many rows a step in this direction moves.
    pub open spec fn dy(self) -> int {
        match self {
            Direction::North => -1,
            Direction::South => 1,
            Direction::East | Direction::West => 0,
        }
    }

    /// The direction that the number `n` picks: its remainder by four counts
    /// through north, south, east, west.
    pub open spec fn spec_from_u64(n: u64) -> Direction {
        if n % 4 == 0 {
            Direction::North
        } else if n % 4 == 1 {
            Direction::South
        } else if n % 4 == 2 {
            Direction::East
        } else {
            Direction::West
        }
    }

    /// The direction that the number `n` picks. Numbers spread evenly over
    /// `u64` give each direction equally often.
    #[verifier::when_used_as_spec(spec_from_u64)]
    pub fn from_u64(n: u64) -> (d: Direction)
        ensures
            d == Direction::spec_from_u64(n),
    {
        let r: u64 = n % 4;
        if r == 0 {
            Direction::North
        } else if r == 1 {
            Direction::South
        } else if r == 2 {
            Direction::East
        } else {
            Direction::West
        }
    }

    /// A direction picked by the next number that `source` gives.
    pub fn read(source: &mut random::Xorshift128Plus) -> Direction {
        Direction::from_u64(draw(source))
    }

    /// By how many columns a step in this direction moves.
    pub open spec fn dx(self) -> int {
        match self {
            Direction::West => -1,
            Direction::East => 1,
            Direction::North | Direction::South => 0,
        }
    }
}

impl Default for Direction {
    fn default() -> (d: Direction)
        ensures
            d == Direction::West,
    {
        Direction::West
    }
}

} // verus!
