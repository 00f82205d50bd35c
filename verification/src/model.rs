//! The board as a mathematical value, and what each operation makes of it.
//!
//! Nothing here runs. The contracts of the executable board in
//! [`crate::board`] are written with these functions.

use vstd::prelude::*;

use crate::color::Color;
use crate::direction::Direction;
use crate::error::{FlowError, FlowResult};
use crate::tile::Tile;

verus! {

/// The state of a board: the grid, the cursor, the drag flag and the colour
/// that the next pair of anchors will get.
pub struct BoardView {
    /// The tiles, row by row.
    pub rows: Seq<Seq<Tile>>,
    /// The number of columns.
    pub width: nat,
    /// The number of rows.
    pub height: nat,
    /// The row of the cursor.
    pub cursor_y: nat,
    /// The column of the cursor.
    pub cursor_x: nat,
    /// Whether moving the cursor paints.
    pub grabbed: bool,
    /// The colour that the next pair of anchors gets.
    pub next_color: Color,
}

impl BoardView {
    /// Whether `(y, x)` names a cell of the grid.
    pub open spec fn in_bounds(self, y: int, x: int) -> bool {
        0 <= y < self.height && 0 <= x < self.width
    }

    /// Whether the cursor stands on a cell. It always does unless the grid has
    /// no cells at all.
    pub open spec fn on_grid(self) -> bool {
        self.in_bounds(self.cursor_y as int, self.cursor_x as int)
    }

    /// The grid is a rectangle of `height` rows and `width` columns, and the
    /// cursor stands on one of its cells. A grid without cells has its cursor
    /// at the origin.
    pub open spec fn wf(self) -> bool {
        &&& self.rows.len() == self.height
        &&& forall|r: int| 0 <= r < self.height ==> (#[trigger] self.rows[r]).len() == self.width
        &&& self.on_grid() || (self.cursor_y == 0 && self.cursor_x == 0)
    }

    /// A grid of empty tiles with the cursor at the origin, nothing grabbed and
    /// the first colour of the palette next in line.
    pub open spec fn blank(width: nat, height: nat) -> BoardView {
        BoardView {
            rows: Seq::new(height, |r: int| Seq::new(width, |c: int| Tile::Empty)),
            width,
            height,
            cursor_y: 0,
            cursor_x: 0,
            grabbed: false,
            next_color: Color::Red,
        }
    }

    /// The tile of the cell `(y, x)`.
    pub open spec fn tile(self, y: int, x: int) -> Tile
        recommends
            self.in_bounds(y, x),
    {
        self.rows[y][x]
    }

    /// The tile of `(y, x)`, or the error for a place outside the grid.
    pub open spec fn tile_at(self, y: int, x: int) -> FlowResult<Tile> {
        if self.in_bounds(y, x) {
            Ok(self.tile(y, x))
        } else {
            Err(FlowError::InvalidCoords)
        }
    }

    /// The tile under the cursor.
    pub open spec fn cursor_tile(self) -> Tile
        recommends
            self.on_grid(),
    {
        self.tile(self.cursor_y as int, self.cursor_x as int)
    }

    /// The board with `t` written to `(y, x)` and nothing else changed.
    pub open spec fn with_tile(self, y: int, x: int, t: Tile) -> BoardView
        recommends
            self.in_bounds(y, x),
    {
        BoardView { rows: self.rows.update(y, self.rows[y].update(x, t)), ..self }
    }

    /// The board with `t` written under the cursor.
    pub open spec fn with_cursor_tile(self, t: Tile) -> BoardView
        recommends
            self.on_grid(),
    {
        self.with_tile(self.cursor_y as int, self.cursor_x as int, t)
    }

    /// The board with the drag ended.
    pub open spec fn released(self) -> BoardView {
        BoardView { grabbed: false, ..self }
    }

    /// The board after the whole trail of `col` has been taken back: every
    /// trail piece of that colour is empty again, every other tile is as it
    /// was.
    pub open spec fn without_flow(self, col: Color) -> BoardView {
        BoardView {
            rows: Seq::new(
                self.rows.len(),
                |r: int| Seq::new(self.rows[r].len(), |c: int| self.rows[r][c].without_flow(col)),
            ),
            ..self
        }
    }

    /// What placing a pair of anchors at `(y1, x1)` and `(y2, x2)` gives: the
    /// board afterwards and the answer to the caller.
    ///
    /// Both places must lie on the grid, be empty and differ; otherwise the
    /// board stays as it is. The anchors take the colour next in line. Only
    /// then is the following colour asked for: when the palette has none left,
    /// the anchors stand and the answer is `NoMoreColors`.
    pub open spec fn with_source(self, y1: int, x1: int, y2: int, x2: int) -> (
        BoardView,
        FlowResult<()>,
    ) {
        if !self.in_bounds(y1, x1) || !self.in_bounds(y2, x2) {
            (self, Err(FlowError::InvalidCoords))
        } else if !(self.tile(y1, x1) is Empty) || !(self.tile(y2, x2) is Empty) || (y1 == y2 && x1
            == x2) {
            (self, Err(FlowError::TileNotEmpty))
        } else {
            let anchor = Tile::Source(self.next_color);
            let placed = self.with_tile(y1, x1, anchor).with_tile(y2, x2, anchor);
            match self.next_color.spec_next() {
                Ok(following) => (BoardView { next_color: following, ..placed }, Ok(())),
                Err(e) => (placed, Err(e)),
            }
        }
    }

    /// The board after a pair of anchors has been placed at each entry
    /// `(y1, x1, y2, x2)` of `pairs` in turn, whether or not each placement
    /// succeeded.
    pub open spec fn with_sources(self, pairs: Seq<(int, int, int, int)>) -> BoardView
        decreases pairs.len(),
    {
        if pairs.len() == 0 {
            self
        } else {
            let p = pairs.last();
            self.with_sources(pairs.drop_last()).with_source(p.0, p.1, p.2, p.3).0
        }
    }

    /// What placing a wall at `(y, x)` gives: the place must lie on the grid
    /// and be empty, otherwise the board stays as it is.
    pub open spec fn with_wall(self, y: int, x: int) -> (BoardView, FlowResult<()>) {
        if !self.in_bounds(y, x) {
            (self, Err(FlowError::InvalidCoords))
        } else if !(self.tile(y, x) is Empty) {
            (self, Err(FlowError::TileNotEmpty))
        } else {
            (self.with_tile(y, x, Tile::Wall), Ok(()))
        }
    }

    /// Whether a drag can start or end on the tile under the cursor: it must
    /// be an anchor or a trail piece.
    pub open spec fn can_grab(self) -> bool {
        self.on_grid() && (self.cursor_tile() is Source || self.cursor_tile() is Flow)
    }

    /// The board after the grab key: the drag flag flips on a coloured tile
    /// and nothing happens elsewhere.
    pub open spec fn toggled(self) -> BoardView {
        if self.can_grab() {
            BoardView { grabbed: !self.grabbed, ..self }
        } else {
            self
        }
    }

    /// Whether the drag, if one is on, stands on a coloured tile. Play keeps
    /// this true, so a move in play never finds the tile behind it without
    /// colour.
    pub open spec fn drag_on_color(self) -> bool {
        self.grabbed ==> self.can_grab()
    }

    /// What painting with `col` under the cursor gives.
    ///
    /// - On an empty tile the trail grows by this tile.
    /// - On a trail piece of another colour that colour's whole trail is taken
    ///   back, and the tile joins the trail of `col`.
    /// - On a trail piece of `col` itself the whole trail of `col` is taken
    ///   back and the drag ends.
    /// - On an anchor of `col` the drag ends and no tile changes.
    /// - An anchor of another colour and a wall refuse: nothing changes.
    pub open spec fn painted(self, col: Color) -> (BoardView, FlowResult<()>)
        recommends
            self.on_grid(),
    {
        match self.cursor_tile() {
            Tile::Empty => (self.with_cursor_tile(Tile::Flow(col)), Ok(())),
            Tile::Flow(c) => if c == col {
                (self.without_flow(col).released(), Ok(()))
            } else {
                (self.without_flow(c).with_cursor_tile(Tile::Flow(col)), Ok(()))
            },
            Tile::Source(c) => if c == col {
                (self.released(), Ok(()))
            } else {
                (self, Err(FlowError::TileNotEmpty))
            },
            Tile::Wall => (self, Err(FlowError::TileNotEmpty)),
        }
    }

    /// The place one step from the cursor in direction `dir`. It may lie
    /// outside the grid.
    pub open spec fn ahead(self, dir: Direction) -> (int, int) {
        (self.cursor_y + dir.dy(), self.cursor_x + dir.dx())
    }

    /// Whether the edge of the grid stops a step in direction `dir`.
    pub open spec fn blocked(self, dir: Direction) -> bool {
        !self.in_bounds(self.ahead(dir).0, self.ahead(dir).1)
    }

    /// Whether a step in direction `dir` is refused because a drag is on and a
    /// wall lies ahead.
    pub open spec fn walled(self, dir: Direction) -> bool {
        !self.blocked(dir) && self.grabbed && self.tile(self.ahead(dir).0, self.ahead(dir).1) is Wall
    }

    /// The board with the cursor one step further in direction `dir`.
    pub open spec fn stepped(self, dir: Direction) -> BoardView
        recommends
            !self.blocked(dir),
    {
        BoardView {
            cursor_y: self.ahead(dir).0 as nat,
            cursor_x: self.ahead(dir).1 as nat,
            ..self
        }
    }

    /// What a move in direction `dir` gives.
    ///
    /// At the edge, and during a drag in front of a wall, nothing happens and
    /// the move counts as done. Otherwise the cursor steps. During a drag the
    /// step paints the new tile in the colour of the tile just left; where
    /// that tile has no colour the cursor has stepped and the answer is
    /// `EmptyTile`.
    pub open spec fn moved(self, dir: Direction) -> (BoardView, FlowResult<()>) {
        if self.blocked(dir) || self.walled(dir) {
            (self, Ok(()))
        } else if !self.grabbed {
            (self.stepped(dir), Ok(()))
        } else {
            match self.cursor_tile().spec_color() {
                Some(col) => self.stepped(dir).painted(col),
                None => (self.stepped(dir), Err(FlowError::EmptyTile)),
            }
        }
    }

    /// The colour at `(y, x)`: none outside the grid, and none on an empty
    /// tile or a wall.
    pub open spec fn color_at(self, y: int, x: int) -> Option<Color> {
        if self.in_bounds(y, x) {
            self.tile(y, x).spec_color()
        } else {
            None
        }
    }

    /// Whether one of the up to four cells next to `(y, x)` carries `col`.
    pub open spec fn touches(self, y: int, x: int, col: Color) -> bool {
        ||| self.color_at(y - 1, x) == Some(col)
        ||| self.color_at(y + 1, x) == Some(col)
        ||| self.color_at(y, x - 1) == Some(col)
        ||| self.color_at(y, x + 1) == Some(col)
    }

    /// Whether the coloured tile at `(y, x)` has a neighbour of its own
    /// colour. Asking outside the grid, or about a tile without colour, is an
    /// error.
    pub open spec fn connected(self, y: int, x: int) -> FlowResult<bool> {
        match self.tile_at(y, x) {
            Err(e) => Err(e),
            Ok(t) => match t.spec_color() {
                None => Err(FlowError::EmptyTile),
                Some(col) => Ok(self.touches(y, x, col)),
            },
        }
    }

    /// Whether every anchor on the board has a neighbour of its own colour.
    pub open spec fn solved(self) -> bool {
        forall|y: int, x: int|
            self.in_bounds(y, x) && #[trigger] self.tile(y, x) is Source ==> self.connected(y, x)
                == Ok::<bool, FlowError>(true)
    }
}

} // verus!
