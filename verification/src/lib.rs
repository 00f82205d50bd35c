//! A grid puzzle in which the player joins pairs of same-coloured anchors by
//! dragging a trail across the board.
//!
//! The crate holds the game itself: tiles, cursor, drag mode, the paint rule,
//! the test for a solved board, the turn that a key press makes, the text of
//! a level and the text that shows a board. Terminal and file handling belong
//! to the host program.

pub mod board;
pub mod color;
pub mod direction;
pub mod error;
pub mod game;
pub mod input;
pub mod laws;
pub mod level;
pub mod model;
pub mod render;
pub mod text;
pub mod tile;

pub use board::FlowBoard;
pub use color::Color;
pub use direction::Direction;
pub use error::{FlowError, FlowResult};
pub use game::{step, Outcome};
pub use input::{Command, Key};
pub use level::{from_line, from_text, LevelError, Line};
pub use model::BoardView;
pub use render::escape;
pub use tile::Tile;
